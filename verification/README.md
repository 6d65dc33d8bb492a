# egor

A small cross-platform 2D engine, split in two:

- `src/` — the verified library (Verus): keyboard, mouse and touch input
  state; geometry batching with its vertex and index limits; index
  generation for quads, fans and polylines; resource ids with fallbacks;
  the render graph; frame-loop decisions; frame counting; text alignment
  and buffer pooling; the window requests a frame makes; the decoding of
  texture and font bytes; and the tile map lookups. Every public function
  carries a contract, and the laws that tie the operations together are
  proof functions beside them.
- `app/` — the engine around it: the `winit` event loop, `wgpu`
  rendering, `glyphon` text, `lyon` tessellation and the floating-point
  geometry (camera, rectangles, colors, cursor positions).
- `tests/` — tests of the library on concrete values.
