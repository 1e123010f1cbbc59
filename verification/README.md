# gputools_replay

A client for Apple's private GPU-trace replay framework, split in two.

`src/` is the verified library (Verus):

- `sys` — what the framework dictates: its plain request types, opaque
  handle types, the unlock variable check and an inventory of its exports.
- `replay` — the substrate: reply envelope parsing (keyed-archive bplists,
  decoded through the `plist` crate), 80-byte info records, the harvester
  capture-block format, request shapes, replayer configuration, error texts,
  and every decision a session and a fetch make.
- `hl` — domain types: the pixel-format table, textures and wireframes with
  checked pixel geometry, buffers, heaps, acceleration structures, pipeline
  binaries (with an unarchiver for their nested keyed archives), and the
  best-effort join of fetched textures against the manifest's descriptors.

`app/` is the ordinary Rust around it: the framework's C and Objective-C
entry points, the session bootstrap and fetch plumbing, typed `bytemuck`
views, `thiserror` error types and manifest reading. It performs the calls;
the library makes the decisions.

`tests/` exercise the library from outside.
