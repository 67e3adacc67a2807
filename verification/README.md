# gst-mxl-rs

The logic of two GStreamer elements for the Media eXchange Layer (MXL): a source
that reads a flow into a stream, and a sink that writes a stream into a flow.
The library is written in Verus and verified.

- `src/mxlsrc`: settings, starting, video and audio buffers, stream format;
  `stream.rs` states what holds from one audio buffer to the next.
- `src/mxlsink`: settings, video and audio buffers, the flow for a format
  and how it is opened.
- `src/planar.rs`: samples between interleaved and per-channel layout.
- `src/timing.rs`, `src/caps.rs`, `src/flowdef.rs`, `src/json.rs`,
  `src/text.rs`, `src/property.rs`, `src/lifecycle.rs`: what both share.
- `app`: the elements themselves. They call GStreamer, MXL and the file system,
  hand plain values to the library and carry out what it decides.

Functions whose name starts with `law_` state what holds of the library as a
whole. Times are in nanoseconds. Where a function cannot take every input
because a position or a time would not be representable, a `check_` function
beside it tells whether it can take this one.
