//! The state and decisions of a SimCity 4 DLL director.
//!
//! The game drives a director through the vtables of its cIGZCOMDirector and
//! cIGZFrameWorkHooks interfaces. `RustDirector` holds everything those
//! entries read or change: the reference count, the director id, the game's
//! COM and framework objects (by address, 0 when absent), the class-factory
//! registry and the user's hooks. Addresses of game objects are plain `usize`
//! values here; the code that owns the vtables converts them.

use std::collections::HashMap;
use vstd::prelude::*;

use crate::base_types::GZIID_IGZUNKNOWN;
use crate::director_ffi::{GZIID_IGZCOMDIRECTOR, GZIID_IGZFRAMEWORKHOOKS};

verus! {

/// Behaviour that user code gives a director.
///
/// Each hook is described by its `..._outcome` relation:
/// `h.post_app_init_outcome(r, after)` holds when the hook, called on `h`,
/// may answer `r` and leave the hooks as `after`. Unless an implementation
/// says otherwise, a hook's relation is the default behaviour: it reports
/// success (`true`) and changes nothing. An implementation that keeps that
/// behaviour answers with `default_hook_answer()`; one that does something
/// else states its own relation.
pub trait DirectorHooks: Sized {
    /// What `pre_framework_init` may answer and leave behind; by default, `true`
    /// with nothing changed.
    open spec fn pre_framework_init_outcome(&self, r: bool, after: Self) -> bool {
        r && after == *self
    }

    /// Called before the framework is initialized.
    fn pre_framework_init(&mut self) -> (r: bool)
        ensures
            old(self).pre_framework_init_outcome(r, *final(self)),
    ;

    /// What `pre_app_init` may answer and leave behind; by default, `true`
    /// with nothing changed.
    open spec fn pre_app_init_outcome(&self, r: bool, after: Self) -> bool {
        r && after == *self
    }

    /// Called before the app is initialized.
    fn pre_app_init(&mut self) -> (r: bool)
        ensures
            old(self).pre_app_init_outcome(r, *final(self)),
    ;

    /// What `post_app_init` may answer and leave behind; by default, `true`
    /// with nothing changed.
    open spec fn post_app_init_outcome(&self, r: bool, after: Self) -> bool {
        r && after == *self
    }

    /// Called after the app is initialized; this is where a mod sets itself up.
    fn post_app_init(&mut self) -> (r: bool)
        ensures
            old(self).post_app_init_outcome(r, *final(self)),
    ;

    /// What `pre_app_shutdown` may answer and leave behind; by default, `true`
    /// with nothing changed.
    open spec fn pre_app_shutdown_outcome(&self, r: bool, after: Self) -> bool {
        r && after == *self
    }

    /// Called before the app shuts down.
    fn pre_app_shutdown(&mut self) -> (r: bool)
        ensures
            old(self).pre_app_shutdown_outcome(r, *final(self)),
    ;

    /// What `post_app_shutdown` may answer and leave behind; by default, `true`
    /// with nothing changed.
    open spec fn post_app_shutdown_outcome(&self, r: bool, after: Self) -> bool {
        r && after == *self
    }

    /// Called after the app shuts down.
    fn post_app_shutdown(&mut self) -> (r: bool)
        ensures
            old(self).post_app_shutdown_outcome(r, *final(self)),
    ;

    /// What `post_system_service_shutdown` may answer and leave behind; by default, `true`
    /// with nothing changed.
    open spec fn post_system_service_shutdown_outcome(&self, r: bool, after: Self) -> bool {
        r && after == *self
    }

    /// Called after system services shut down.
    fn post_system_service_shutdown(&mut self) -> (r: bool)
        ensures
            old(self).post_system_service_shutdown_outcome(r, *final(self)),
    ;

    /// What `abortive_quit` may answer and leave behind; by default, `true`
    /// with nothing changed.
    open spec fn abortive_quit_outcome(&self, r: bool, after: Self) -> bool {
        r && after == *self
    }

    /// Called on abortive quit (crash).
    fn abortive_quit(&mut self) -> (r: bool)
        ensures
            old(self).abortive_quit_outcome(r, *final(self)),
    ;

    /// What `on_install` may answer and leave behind; by default, `true`
    /// with nothing changed.
    open spec fn on_install_outcome(&self, r: bool, after: Self) -> bool {
        r && after == *self
    }

    /// Called on install.
    fn on_install(&mut self) -> (r: bool)
        ensures
            old(self).on_install_outcome(r, *final(self)),
    ;

    /// The id the hooks report; unspecified unless the implementation says.
    open spec fn spec_director_id(&self) -> u32 {
        arbitrary()
    }

    /// The director id; it must be unique.
    fn get_director_id(&self) -> (r: u32)
        ensures
            r == self.spec_director_id(),
    ;

    /// What `on_start` may answer and leave behind, given the COM object at
    /// address `com`; by default, `true` with nothing changed.
    open spec fn on_start_outcome(&self, com: usize, r: bool, after: Self) -> bool {
        r && after == *self
    }

    /// Called when the director is loaded; `com` is the address of the
    /// game's cIGZCOM object.
    fn on_start(&mut self, com: usize) -> (r: bool)
        ensures
            old(self).on_start_outcome(com, r, *final(self)),
    ;
}

/// The answer of a hook that keeps the default behaviour: success.
pub fn default_hook_answer() -> (r: bool)
    ensures
        r,
{
    true
}

/// What a director is, apart from its hooks.
pub struct DirectorState<F> {
    /// Outstanding references.
    pub ref_count: u32,
    /// The id the hooks gave when the director was made.
    pub director_id: u32,
    /// Address of the game's cIGZCOM object, 0 before `initialize_com`.
    pub com: usize,
    /// Address of the game's cIGZFrameWork object, 0 when unknown.
    pub framework: usize,
    /// The class factories, by class id.
    pub classes: Map<u32, F>,
}

/// Whether a director answers a query for interface `riid`: it is a
/// cIGZCOMDirector, a cIGZFrameWorkHooks and a cIGZUnknown.
pub open spec fn answers_interface(riid: u32) -> bool {
    riid == GZIID_IGZCOMDIRECTOR || riid == GZIID_IGZFRAMEWORKHOOKS || riid == GZIID_IGZUNKNOWN
}

/// Whether a director has interface `riid`.
pub fn answers_interface_id(riid: u32) -> (r: bool)
    ensures
        r == answers_interface(riid),
{
    riid == GZIID_IGZCOMDIRECTOR || riid == GZIID_IGZFRAMEWORKHOOKS || riid == GZIID_IGZUNKNOWN
}

impl<F> DirectorState<F> {
    /// The state with one more reference.
    pub open spec fn with_ref_added(self) -> DirectorState<F> {
        DirectorState {
            ref_count: (self.ref_count + 1) as u32,
            director_id: self.director_id,
            com: self.com,
            framework: self.framework,
            classes: self.classes,
        }
    }

    /// The state with one reference fewer; a count of zero stays zero.
    pub open spec fn with_ref_released(self) -> DirectorState<F> {
        DirectorState {
            ref_count: if self.ref_count > 0 {
                (self.ref_count - 1) as u32
            } else {
                0
            },
            director_id: self.director_id,
            com: self.com,
            framework: self.framework,
            classes: self.classes,
        }
    }

    /// Whether a query for `riid` succeeds: the caller gave somewhere to
    /// write the interface, and the director has it.
    pub open spec fn query_succeeds(self, riid: u32, has_out_slot: bool) -> bool {
        has_out_slot && answers_interface(riid)
    }

    /// The state after a query for `riid`: a successful query hands out a
    /// reference.
    pub open spec fn after_query(self, riid: u32, has_out_slot: bool) -> DirectorState<F> {
        if self.query_succeeds(riid, has_out_slot) {
            self.with_ref_added()
        } else {
            self
        }
    }

    /// The state after the game hands over its COM object at address `com`;
    /// a null address changes nothing.
    pub open spec fn after_initialize_com(self, com: usize) -> DirectorState<F> {
        if com != 0 {
            DirectorState {
                ref_count: self.ref_count,
                director_id: self.director_id,
                com: com,
                framework: self.framework,
                classes: self.classes,
            }
        } else {
            self
        }
    }

    /// The state with `factory` registered for class `clsid`, replacing any
    /// earlier one.
    pub open spec fn with_class(self, clsid: u32, factory: F) -> DirectorState<F> {
        DirectorState {
            ref_count: self.ref_count,
            director_id: self.director_id,
            com: self.com,
            framework: self.framework,
            classes: self.classes.insert(clsid, factory),
        }
    }
}

/// A SimCity 4 DLL director: reference counting, interface queries, the
/// class-factory registry and the user's hooks.
///
/// `F` is the type of a class factory; the director only stores factories and
/// hands them back.
pub struct RustDirector<T: DirectorHooks, F> {
    ref_count: u32,
    director_id: u32,
    com: usize,
    framework: usize,
    class_factories: HashMap<u32, F>,
    hooks: T,
}

impl<T: DirectorHooks, F> View for RustDirector<T, F> {
    type V = DirectorState<F>;

    closed spec fn view(&self) -> DirectorState<F> {
        DirectorState {
            ref_count: self.ref_count,
            director_id: self.director_id,
            com: self.com,
            framework: self.framework,
            classes: self.class_factories@,
        }
    }
}

impl<T: DirectorHooks, F> RustDirector<T, F> {
    /// The user's hooks the director keeps.
    pub closed spec fn hooks(&self) -> T {
        self.hooks
    }

    /// Create a director around the user's hooks: no references, no COM or
    /// framework object, no class factories, and the id the hooks report.
    /// The hooks are kept as given.
    pub fn new(hooks: T) -> (d: Self)
        ensures
            d.hooks() == hooks,
            d@.director_id == hooks.spec_director_id(),
            d@.ref_count == 0,
            d@.com == 0,
            d@.framework == 0,
            d@.classes == Map::<u32, F>::empty(),
    {
        let director_id = hooks.get_director_id();
        RustDirector {
            ref_count: 0,
            director_id,
            com: 0,
            framework: 0,
            class_factories: HashMap::new(),
            hooks,
        }
    }

    /// Register a class factory for `clsid`, replacing any earlier one.
    pub fn add_class(&mut self, clsid: u32, factory: F)
        ensures
            final(self).hooks() == old(self).hooks(),
            final(self)@ == old(self)@.with_class(clsid, factory),
    {
        self.class_factories.insert(clsid, factory);
    }

    /// QueryInterface: hand out the director as interface `riid`.
    ///
    /// `has_out_slot` says whether the caller gave somewhere to write the
    /// interface. On success the caller receives the director itself and
    /// the director gains a reference.
    pub fn query_interface(&mut self, riid: u32, has_out_slot: bool) -> (r: bool)
        requires
            old(self)@.query_succeeds(riid, has_out_slot) ==> old(self)@.ref_count < u32::MAX,
        ensures
            final(self).hooks() == old(self).hooks(),
            r == old(self)@.query_succeeds(riid, has_out_slot),
            r == (has_out_slot && (riid == GZIID_IGZCOMDIRECTOR || riid == GZIID_IGZFRAMEWORKHOOKS
                || riid == GZIID_IGZUNKNOWN)),
            final(self)@.ref_count == (if r {
                old(self)@.ref_count + 1
            } else {
                old(self)@.ref_count as int
            }),
            final(self)@ == old(self)@.after_query(riid, has_out_slot),
    {
        if !has_out_slot {
            return false;
        }
        if answers_interface_id(riid) {
            self.add_ref();
            true
        } else {
            false
        }
    }

    /// AddRef: one more reference; returns the new count.
    pub fn add_ref(&mut self) -> (r: u32)
        requires
            old(self)@.ref_count < u32::MAX,
        ensures
            final(self).hooks() == old(self).hooks(),
            final(self)@ == old(self)@.with_ref_added(),
            r == final(self)@.ref_count,
    {
        self.ref_count = self.ref_count + 1;
        self.ref_count
    }

    /// Release: one reference fewer, never below zero; returns the new count.
    pub fn release(&mut self) -> (r: u32)
        ensures
            final(self).hooks() == old(self).hooks(),
            final(self)@ == old(self)@.with_ref_released(),
            r == final(self)@.ref_count,
    {
        if self.ref_count > 0 {
            self.ref_count = self.ref_count - 1;
        }
        self.ref_count
    }

    /// RemoveRef: the same as `release`.
    pub fn remove_ref(&mut self) -> (r: u32)
        ensures
            final(self).hooks() == old(self).hooks(),
            final(self)@ == old(self)@.with_ref_released(),
            r == final(self)@.ref_count,
    {
        self.release()
    }

    /// RefCount: the number of outstanding references.
    pub fn ref_count(&self) -> (r: u32)
        ensures
            r == self@.ref_count,
    {
        self.ref_count
    }

    /// CanUnloadNow: the game may unload the DLL once no reference is left.
    pub fn can_unload_now(&self) -> (r: bool)
        ensures
            r == (self@.ref_count == 0),
    {
        self.ref_count == 0
    }

    /// OnUnload: always agrees.
    pub fn on_unload(&self) -> (r: bool)
        ensures
            r,
    {
        true
    }

    /// InitializeCOM: keep the game's COM object; a null address is refused.
    ///
    /// The library path the game passes along is not kept.
    pub fn initialize_com(&mut self, com: usize) -> (r: bool)
        ensures
            final(self).hooks() == old(self).hooks(),
            r == (com != 0),
            final(self)@ == old(self)@.after_initialize_com(com),
    {
        if com == 0 {
            return false;
        }
        self.com = com;
        true
    }

    /// OnStart: ask the hooks.
    pub fn on_start(&mut self, com: usize) -> (r: bool)
        ensures
            final(self)@ == old(self)@,
            old(self).hooks().on_start_outcome(com, r, final(self).hooks()),
    {
        self.hooks.on_start(com)
    }

    /// EnumClassObjects: the ids of all registered classes, each once.
    pub fn enum_class_objects(&self) -> (ids: Vec<u32>)
        ensures
            ids@.to_set() == self@.classes.dom(),
            ids@.no_duplicates(),
    {
        let mut ids: Vec<u32> = Vec::new();
        let keys = self.class_factories.keys();
        let ghost listed = vstd::std_specs::iter::IteratorSpec::remaining(&keys);
        for clsid in it: keys
            invariant
                it.seq() == listed,
                ids@ == listed.unref().take(it.index() as int),
        {
            ids.push(*clsid);
            assert(ids@ =~= listed.unref().take(it.index() + 1));
        }
        assert(ids@ == listed.unref());
        ids
    }

    /// GetClassObject: the factory registered for `clsid`, if any.
    pub fn get_class_object(&self, clsid: u32) -> (r: Option<&F>)
        ensures
            match r {
                Some(f) => self@.classes.contains_key(clsid) && *f == self@.classes[clsid],
                None => !self@.classes.contains_key(clsid),
            },
    {
        self.class_factories.get(&clsid)
    }

    /// FrameWork: the address of the game's framework object (0 if unknown).
    pub fn framework(&self) -> (r: usize)
        ensures
            r == self@.framework,
    {
        self.framework
    }

    /// GZCOM: the address of the game's COM object (0 before InitializeCOM).
    pub fn gzcom(&self) -> (r: usize)
        ensures
            r == self@.com,
    {
        self.com
    }

    /// AddDirector: child directors are not supported; nothing changes.
    pub fn add_director(&mut self, director: usize)
        ensures
            final(self).hooks() == old(self).hooks(),
            final(self)@ == old(self)@,
    {
    }

    /// GetLibraryPath: the path is not kept; reports success.
    pub fn get_library_path(&self) -> (r: bool)
        ensures
            r,
    {
        true
    }

    /// GetHeapAllocatedSize: always 0.
    pub fn get_heap_allocated_size(&self) -> (r: u32)
        ensures
            r == 0,
    {
        0
    }

    /// PreFrameWorkInit: ask the hooks.
    pub fn pre_framework_init(&mut self) -> (r: bool)
        ensures
            final(self)@ == old(self)@,
            old(self).hooks().pre_framework_init_outcome(r, final(self).hooks()),
    {
        self.hooks.pre_framework_init()
    }

    /// PreAppInit: ask the hooks.
    pub fn pre_app_init(&mut self) -> (r: bool)
        ensures
            final(self)@ == old(self)@,
            old(self).hooks().pre_app_init_outcome(r, final(self).hooks()),
    {
        self.hooks.pre_app_init()
    }

    /// PostAppInit: ask the hooks.
    pub fn post_app_init(&mut self) -> (r: bool)
        ensures
            final(self)@ == old(self)@,
            old(self).hooks().post_app_init_outcome(r, final(self).hooks()),
    {
        self.hooks.post_app_init()
    }

    /// PreAppShutdown: ask the hooks.
    pub fn pre_app_shutdown(&mut self) -> (r: bool)
        ensures
            final(self)@ == old(self)@,
            old(self).hooks().pre_app_shutdown_outcome(r, final(self).hooks()),
    {
        self.hooks.pre_app_shutdown()
    }

    /// PostAppShutdown: ask the hooks.
    pub fn post_app_shutdown(&mut self) -> (r: bool)
        ensures
            final(self)@ == old(self)@,
            old(self).hooks().post_app_shutdown_outcome(r, final(self).hooks()),
    {
        self.hooks.post_app_shutdown()
    }

    /// PostSystemServiceShutdown: ask the hooks.
    pub fn post_system_service_shutdown(&mut self) -> (r: bool)
        ensures
            final(self)@ == old(self)@,
            old(self).hooks().post_system_service_shutdown_outcome(r, final(self).hooks()),
    {
        self.hooks.post_system_service_shutdown()
    }

    /// AbortiveQuit: ask the hooks.
    pub fn abortive_quit(&mut self) -> (r: bool)
        ensures
            final(self)@ == old(self)@,
            old(self).hooks().abortive_quit_outcome(r, final(self).hooks()),
    {
        self.hooks.abortive_quit()
    }

    /// OnInstall: ask the hooks.
    pub fn on_install(&mut self) -> (r: bool)
        ensures
            final(self)@ == old(self)@,
            old(self).hooks().on_install_outcome(r, final(self).hooks()),
    {
        self.hooks.on_install()
    }
}

/// A release undoes an AddRef: the director is as it was before.
pub proof fn lemma_release_undoes_add_ref<F>(s: DirectorState<F>)
    requires
        s.ref_count < u32::MAX,
    ensures
        s.with_ref_added().with_ref_released() == s,
{
}

/// A release undoes a successful query: the reference the query handed out
/// is given back and the director is as it was before.
pub proof fn lemma_release_undoes_query<F>(s: DirectorState<F>, riid: u32, has_out_slot: bool)
    requires
        s.query_succeeds(riid, has_out_slot),
        s.ref_count < u32::MAX,
    ensures
        s.after_query(riid, has_out_slot).with_ref_released() == s,
{
}

/// A query succeeds exactly when the caller gave somewhere to write the
/// answer and asked for cIGZCOMDirector (0xA21EE941), cIGZFrameWorkHooks
/// (0x03FA40BF) or cIGZUnknown (1); every other interface, such as cISC4City
/// (0x26D31EC0), is refused.
pub proof fn lemma_query_answers_exactly_the_director_interfaces<F>(
    s: DirectorState<F>,
    riid: u32,
    has_out_slot: bool,
)
    ensures
        s.query_succeeds(riid, has_out_slot) == (has_out_slot && (riid == 0xA21EE941u32 || riid
            == 0x03FA40BFu32 || riid == 1u32)),
        !s.query_succeeds(0x26D31EC0u32, has_out_slot),
{
}

/// Whether a query succeeds does not depend on the director's state: not on
/// its references, its COM or framework object, nor its registered classes.
pub proof fn lemma_query_ignores_state<F>(
    s1: DirectorState<F>,
    s2: DirectorState<F>,
    riid: u32,
    has_out_slot: bool,
)
    ensures
        s1.query_succeeds(riid, has_out_slot) == s2.query_succeeds(riid, has_out_slot),
{
}

/// A successful query hands out exactly one reference and changes nothing
/// else, whatever state the director is in.
pub proof fn lemma_successful_query_adds_one_reference<F>(
    s: DirectorState<F>,
    riid: u32,
)
    requires
        riid == 0xA21EE941u32 || riid == 0x03FA40BFu32 || riid == 1u32,
        s.ref_count < u32::MAX,
    ensures
        s.query_succeeds(riid, true),
        s.after_query(riid, true).ref_count == s.ref_count + 1,
        s.after_query(riid, true).director_id == s.director_id,
        s.after_query(riid, true).com == s.com,
        s.after_query(riid, true).framework == s.framework,
        s.after_query(riid, true).classes == s.classes,
{
}

/// A query for an interface the director does not have, or with nowhere to
/// write the answer, changes nothing.
pub proof fn lemma_failed_query_changes_nothing<F>(s: DirectorState<F>, riid: u32, has_out_slot: bool)
    requires
        !answers_interface(riid) || !has_out_slot,
    ensures
        !s.query_succeeds(riid, has_out_slot),
        s.after_query(riid, has_out_slot) == s,
{
}

/// The reference count never goes below zero: releasing a director without
/// references leaves it as it is, and it may still be unloaded.
pub proof fn lemma_release_at_zero_stays<F>(s: DirectorState<F>)
    requires
        s.ref_count == 0,
    ensures
        s.with_ref_released() == s,
        s.with_ref_released().ref_count == 0,
{
}

/// Once a director has taken a reference it cannot be unloaded until as many
/// releases follow: after an AddRef the count is positive.
pub proof fn lemma_add_ref_blocks_unload<F>(s: DirectorState<F>)
    requires
        s.ref_count < u32::MAX,
    ensures
        s.with_ref_added().ref_count > 0,
        s.with_ref_added().ref_count == s.ref_count + 1,
{
}

/// After a factory is registered for `clsid`, looking `clsid` up gives that
/// factory, and every other class keeps what it had.
pub proof fn lemma_class_lookup_after_add<F>(s: DirectorState<F>, clsid: u32, factory: F, other: u32)
    requires
        other != clsid,
    ensures
        s.with_class(clsid, factory).classes.contains_key(clsid),
        s.with_class(clsid, factory).classes[clsid] == factory,
        s.with_class(clsid, factory).classes.contains_key(other) == s.classes.contains_key(other),
        s.classes.contains_key(other) ==> s.with_class(clsid, factory).classes[other]
            == s.classes[other],
{
}

/// Registering a class adds it to the classes the director lists, and only
/// it.
pub proof fn lemma_add_class_lists_class<F>(s: DirectorState<F>, clsid: u32, factory: F)
    ensures
        s.with_class(clsid, factory).classes.dom() == s.classes.dom().insert(clsid),
{
}

/// After InitializeCOM with a non-null COM object, GZCOM gives that object
/// back; the reference count and the classes are untouched.
pub proof fn lemma_gzcom_after_initialize<F>(s: DirectorState<F>, com: usize)
    requires
        com != 0,
    ensures
        s.after_initialize_com(com).com == com,
        s.after_initialize_com(com).ref_count == s.ref_count,
        s.after_initialize_com(com).classes == s.classes,
{
}

} // verus!
