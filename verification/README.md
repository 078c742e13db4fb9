# rust_av

Multimedia primitives (bit and byte readers, pixel and sample formats,
frames, packets, buffered demuxing and codec lookup), written in Verus with
their behaviour stated in contracts and proved.

Layout:

- `src/bitstream`: endian-aware byte reading and writing, and bit readers
  with a model of the bits they consume, with the laws that tie them together.
- `src/data`: pixel and audio sample formats, color spaces, frames and their
  planes, packets, reference-counted buffers, codec parameters.
- `src/format`: the buffered reader that demuxers read from, the demuxing
  context, streams, muxer lookup.
- `src/codec`: decoder and encoder lists and contexts.
- `app/`: what stays outside the verified library: `std::io` glue for the
  buffered reader, packets and muxers, the demuxing loops, floating-point
  byte access and typed views over frame planes.
- `tests/`: tests of the library through its public interface.
