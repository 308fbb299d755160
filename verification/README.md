# sc4_rust_poc

Rust bindings for SimCity 4's GZCOM plugin interface, with the logic around
the game's C++ calls verified by Verus.

- `src/` — the verified library: city value types and the decisions made on
  the status codes the game returns (`city_safe`), the director's reference
  counting, interface queries, class-factory registry and hook dispatch
  (`director`), handles on game strings (`string_types`, `string_types_v2`),
  and the interface ids and opaque game types (`base_types`, `city_ffi`,
  `director_ffi`). Game objects are handled by address (`usize`).
  Each director hook hands on the answer of the user's `DirectorHooks`
  implementation, as that hook's `..._outcome` relation describes it; a hook
  that keeps the default behaviour (success, nothing changed) answers with
  `default_hook_answer()`.
- `app/` — the FFI layer: the `#[repr(C)]` vtable layouts, the calls through
  them, the director object the game calls into, and the floating-point
  city types. It converts pointers to addresses and lets the library decide.
- `tests/` — tests of the library.

The game is a 32-bit MSVC program whose member functions use `thiscall`; on
other targets the app layer uses the C convention so that it still builds.
