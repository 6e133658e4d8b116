# bl_wgpu_util

Building blocks for small wgpu renderers, with the CPU-side logic verified by Verus.

- `src/` is the verified library:
  - `image`: RGBA8 images in memory — creation, decoding, sub-image extraction and blitting,
    with the byte layout of each operation stated and laws relating them.
  - `renderers::basic_renderer`: vertex formats and layouts (offsets, alignment, stride),
    reading and writing attribute values as bytes, uniform struct descriptions, and the WGSL
    shader generated from a renderer descriptor.
- `app/` runs that logic on the GPU with wgpu: depth buffers, viewports, texture upload,
  pipelines and the ready-made renderers, plus everything that needs floating point.
- `tests/` exercises the library on concrete values.
