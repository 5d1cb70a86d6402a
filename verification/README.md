# AprilTag detection

The configuration of an AprilTag decoder and the run of its stages over an image, verified with
Verus.

- `src/` is the library: the tag families (`family`), the configuration (`config`), images and their
  resizing by `kornia` (`image`), the sets of pixels (`union_find`), the stages that a decoder runs
  (`stages`), the decoder itself (`decoder`) and what holds of a decoder that is used for one image
  after another (`reuse`).
- `tests/` runs the library.
- `app/` takes images as `kornia` holds them.

The stages are a parameter of the decoder. Nothing is assumed of them: the contract of
`AprilTagDecoder::decode` says which stage is given what, in which order, and what becomes of what
it gives back.
