# primrose_rust

The native side of a game engine's C# interface, verified with Verus.

- `src/bytebuffer.rs`: `ByteBuffer`, a buffer whose memory is handed to the C
  side and taken back; contracts on its sizes, what destroying it gives back,
  and the round trip from a vector to a buffer and back.
- `src/blending.rs`: the bookkeeping of an animation blending job's layer list
  and of buffer views over foreign memory.
- `src/avif.rs`: AVIF encoding of RGBA images into a `ByteBuffer`, through the
  `ravif` crate.
- `app/`: the `extern "C"` entry points, which move pointers and handles
  across the boundary and call the library; the ozz-animation handles live
  there, since `ozz-animation-rs` needs a nightly compiler.
