# Noesis GUI binding with a verified core

A Rust binding to the Noesis GUI runtime, split in two crates.

- `src/` is the library, verified with Verus. It holds the value types that
  cross the native boundary (every enum with its raw value codec, the
  modifier-key and key-state bit sets, `Int32Rect`, `HitTest`), the bookkeeping
  that decides what the native layer is asked to do (registration ids and the
  last-registration-wins rule of the error, assert and font-provider hooks, the
  property-registration protocol of Rust-backed classes, the side table that
  decodes property values in change and coerce callbacks), and the laws these
  obey, stated as public proof functions.
- `app/` is ordinary Rust around it: the `extern "C"` declarations of the
  native shim, the owning handles over Noesis objects, and the trampolines that
  carry callbacks back into Rust. It reads and writes raw pointers and floats
  and hands the library plain values.
- `tests/` exercises the library on concrete values.
