use sc4_rust_poc::director_ffi::{GZIID_IGZCOMDIRECTOR, GZIID_IGZFRAMEWORKHOOKS};
use sc4_rust_poc::director::default_hook_answer;
use sc4_rust_poc::{DirectorHooks, RustDirector, GZIID_IGZUNKNOWN};

struct Quiet;

impl DirectorHooks for Quiet {
    fn pre_framework_init(&mut self) -> bool {
        default_hook_answer()
    }

    fn pre_app_init(&mut self) -> bool {
        default_hook_answer()
    }

    fn post_app_init(&mut self) -> bool {
        default_hook_answer()
    }

    fn pre_app_shutdown(&mut self) -> bool {
        default_hook_answer()
    }

    fn post_app_shutdown(&mut self) -> bool {
        default_hook_answer()
    }

    fn post_system_service_shutdown(&mut self) -> bool {
        default_hook_answer()
    }

    fn abortive_quit(&mut self) -> bool {
        default_hook_answer()
    }

    fn on_install(&mut self) -> bool {
        default_hook_answer()
    }

    fn get_director_id(&self) -> u32 {
        0x1234_5678
    }

    fn on_start(&mut self, _com: usize) -> bool {
        default_hook_answer()
    }
}

struct Counting {
    calls: u32,
}

impl DirectorHooks for Counting {
    fn pre_framework_init(&mut self) -> bool {
        default_hook_answer()
    }

    fn pre_app_init(&mut self) -> bool {
        self.calls += 1;
        default_hook_answer()
    }

    fn pre_app_shutdown(&mut self) -> bool {
        default_hook_answer()
    }

    fn post_app_shutdown(&mut self) -> bool {
        default_hook_answer()
    }

    fn post_system_service_shutdown(&mut self) -> bool {
        default_hook_answer()
    }

    fn abortive_quit(&mut self) -> bool {
        default_hook_answer()
    }

    fn on_install(&mut self) -> bool {
        default_hook_answer()
    }

    fn get_director_id(&self) -> u32 {
        7
    }

    fn post_app_init(&mut self) -> bool {
        self.calls += 1;
        false
    }

    fn on_start(&mut self, com: usize) -> bool {
        self.calls += 1;
        com == 0x99
    }
}

fn quiet() -> RustDirector<Quiet, u32> {
    RustDirector::new(Quiet)
}

#[test]
fn new_director_is_empty() {
    let d = quiet();
    assert_eq!(d.ref_count(), 0);
    assert!(d.can_unload_now());
    assert_eq!(d.gzcom(), 0);
    assert_eq!(d.framework(), 0);
    assert!(d.enum_class_objects().is_empty());
    assert_eq!(d.get_class_object(1), None);
}

#[test]
fn add_ref_and_release_count() {
    let mut d = quiet();
    assert_eq!(d.add_ref(), 1);
    assert_eq!(d.add_ref(), 2);
    assert!(!d.can_unload_now());
    assert_eq!(d.release(), 1);
    assert_eq!(d.remove_ref(), 0);
    assert!(d.can_unload_now());
}

#[test]
fn release_at_zero_stays_zero() {
    let mut d = quiet();
    assert_eq!(d.release(), 0);
    assert_eq!(d.remove_ref(), 0);
    assert_eq!(d.ref_count(), 0);
}

#[test]
fn release_undoes_add_ref() {
    let mut d = quiet();
    d.add_ref();
    let before = d.ref_count();
    d.add_ref();
    d.release();
    assert_eq!(d.ref_count(), before);
}

#[test]
fn query_known_interfaces() {
    let mut d = quiet();
    assert!(d.query_interface(GZIID_IGZCOMDIRECTOR, true));
    assert!(d.query_interface(GZIID_IGZFRAMEWORKHOOKS, true));
    assert!(d.query_interface(GZIID_IGZUNKNOWN, true));
    assert_eq!(d.ref_count(), 3);
}

#[test]
fn query_unknown_interface_or_without_slot() {
    let mut d = quiet();
    assert!(!d.query_interface(0xDEAD_BEEF, true));
    assert!(!d.query_interface(GZIID_IGZCOMDIRECTOR, false));
    assert_eq!(d.ref_count(), 0);
}

#[test]
fn release_undoes_query() {
    let mut d = quiet();
    assert!(d.query_interface(GZIID_IGZUNKNOWN, true));
    assert_eq!(d.release(), 0);
    assert!(d.can_unload_now());
}

#[test]
fn initialize_com_keeps_object() {
    let mut d = quiet();
    assert!(!d.initialize_com(0));
    assert_eq!(d.gzcom(), 0);
    assert!(d.initialize_com(0x5000));
    assert_eq!(d.gzcom(), 0x5000);
    assert!(!d.initialize_com(0));
    assert_eq!(d.gzcom(), 0x5000);
}

#[test]
fn class_registry_read_after_write() {
    let mut d = quiet();
    d.add_class(10, 100);
    d.add_class(20, 200);
    assert_eq!(d.get_class_object(10), Some(&100));
    assert_eq!(d.get_class_object(20), Some(&200));
    assert_eq!(d.get_class_object(30), None);
    d.add_class(10, 111);
    assert_eq!(d.get_class_object(10), Some(&111));
    assert_eq!(d.get_class_object(20), Some(&200));
}

#[test]
fn enum_lists_each_class_once() {
    let mut d = quiet();
    d.add_class(3, 0);
    d.add_class(1, 0);
    d.add_class(2, 0);
    d.add_class(1, 5);
    let mut ids = d.enum_class_objects();
    ids.sort();
    assert_eq!(ids, vec![1, 2, 3]);
}

#[test]
fn fixed_answers() {
    let mut d = quiet();
    assert!(d.on_unload());
    assert!(d.get_library_path());
    assert_eq!(d.get_heap_allocated_size(), 0);
    d.add_director(0x7000);
    assert_eq!(d.ref_count(), 0);
}

#[test]
fn default_hooks_report_success() {
    let mut d = quiet();
    assert!(d.pre_framework_init());
    assert!(d.pre_app_init());
    assert!(d.post_app_init());
    assert!(d.pre_app_shutdown());
    assert!(d.post_app_shutdown());
    assert!(d.post_system_service_shutdown());
    assert!(d.abortive_quit());
    assert!(d.on_install());
    assert!(d.on_start(0x99));
}

#[test]
fn hooks_are_asked() {
    let mut d: RustDirector<Counting, u32> = RustDirector::new(Counting { calls: 0 });
    assert!(!d.post_app_init());
    assert!(d.on_start(0x99));
    assert!(!d.on_start(0x98));
    assert!(d.pre_app_init());
    assert_eq!(d.ref_count(), 0);
}

#[test]
fn default_answer_is_success() {
    assert!(default_hook_answer());
}
