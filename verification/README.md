# depthai (verified core)

Rust API for Luxonis DepthAI devices, with the host-side logic verified by Verus.

- `src/` is the verified library (crate `lib`). It holds the enumerations of the
  DepthAI API with their native codes and round-trip laws, device and XLink
  descriptors (fixed-size NUL-terminated text fields), versions and their
  precedence order, the error rules that turn the native layer's pending message
  into a `DepthaiError`, encoded-frame payload slicing and descriptions, video
  encoder settings, point-cloud colour packing, queue timeouts, name checks for
  native calls, test-pattern frames, BGR to RGB reordering, and the host-side
  pipeline nodes (colour and mono cameras, neural network, stereo depth, image
  manipulation, XLink output and input) with a builder that collects nodes and
  links. Frame rates, confidence thresholds and crop corners are carried as the
  bit patterns of their `f32` values, since the library does no arithmetic on
  them.
- `tests/` runs the library on concrete values.
- `app/` holds what Verus cannot take: the handles of the DepthAI C++ library
  (devices, pipelines, nodes, queues, messages, host nodes), the types whose
  fields are floating-point numbers, and the Rerun viewer integration. It calls
  the verified functions for every decision it makes around a native call.
