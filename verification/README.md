# tg

Safe Rust bindings to the `tg` planar geometry engine (through `tg-sys`),
split in two:

- `src/` is the verified library. It holds the geometry value types
  (`Point`, `Segment`, `Rect`, generic over the coordinate type), the
  `IndexType` option, bounds-checked access to the indexed items of an engine
  object (`checked_at`, `checked_level_at`) and the rules by which a point is
  read back from its serialized forms (`PointFields` for the `{x, y}` map,
  `PointElements` for the `[x, y]` pair), with proofs of how those forms are
  read (`law_*` in `point_form.rs`).
- `app/` owns the engine's heap objects (`Line`, `Ring`, `Geom`), makes every
  call into the engine (all of them `unsafe` FFI computing on `f64`), converts
  between the value types at `f64` and the engine's C structs, and drives the
  serde (de)serializer with the library's point-reading rules.

`tests/` exercises the library on concrete values.
