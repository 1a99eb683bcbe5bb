# rust_on_rails

The verified core of a small cross-platform application framework, written
in Verus.

- `src/` is the library. Each module states what its functions return in
  `requires`/`ensures` contracts, and its public proof functions state laws
  over several calls:
  - `sizing`: size requests, and the request tree that layouts work on
  - `canvas`, `drawable`: colours, shapes, text, the items a canvas draws,
    component children and layouts
  - `assets`: decoding image assets through the `image` crate
  - `hex_codec`, `cache`, `state`: the hex codec and SQL text of the
    key-value caches, and the in-memory state store
  - `frames`: converting camera frames (YUV planes, rotated BGRA) to RGBA
  - `tasks`: the control protocol of the background task threads and the
    runtime loop
  - `input`: turning window events into pointer and resize events
  - `drivers`: platform drivers where the platform offers nothing
  - `derive_plan`: the planning step of the component derive
- `app/` is ordinary Rust around the library: SQLite, serde, tokio, threads,
  winit and the `f32`/`f64` scaling that stays outside the verifier.
- `tests/` runs the library on concrete values.
