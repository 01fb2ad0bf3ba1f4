# crayon

The frame-recording core of a small OpenGL renderer, verified with Verus.

- `src/task_value.rs`: fixed-size byte encodings of the plain values that
  frame tasks carry, and of sequences of them.
- `src/task_buffer.rs`: `TaskBuffer`, the per-frame byte arena, and
  `TaskBufferPtr`, the handle that reads an appended value, slice or string
  back; the read-back laws.
- `src/graphics.rs`: handles and the fixed-function enumerations.
- `src/frame.rs`: the frame's task lists and `Frame::dispatch`, which plans
  the device calls of a frame.
- `src/draw_order.rs`: the stable ordering of draw calls by view.
- `src/visitor.rs`: `OpenGLVisitor`, the driver state cache that decides
  which OpenGL calls a request still needs.
- `app/`: the OpenGL calls themselves (through the `gl` crate) and the loop
  that performs a frame's device calls on a device.
