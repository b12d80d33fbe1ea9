# pluey

A GPU image viewer whose decisions are verified with Verus.

- `src/` is the verified library: decoding image files into RGBA pixels
  (`image_data`), the CPU side of the renderer — surface sizing within the
  device's texture limit, the image shown, drags, texture copy layouts and
  the per-frame plan (`renderer_state`) — and the routing of window and
  user events to actions (`events`).
- `app/` is the program around it: the winit event loop, the wgpu device,
  surface, pipeline and textures, file reading, and the floating-point view
  transform (zoom and pan).
- `tests/` exercises the library on concrete values.
