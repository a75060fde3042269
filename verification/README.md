# portia

The logic of a small game engine and of a fighting game built on it, verified with Verus.

- `src/` is the verified library: the engine's event queue, fixed time step and frame
  input order, the job scheduler's decisions, the window event handler, the asset and
  cursor state machines, the render queue, the integer bookkeeping of the renderer
  (quad indexes, glyph atlas placement, scene registry, double buffered instances,
  dirty uniforms, glTF index and attribute decoding), the fighting game's input poller
  and character state machine, and the per-frame character bookkeeping.
- `app/` is the program around it: the window and event loop (winit), threads and
  channels, file system walks, floating point positions, vectors and user interface
  sizes, and the game's setup.
- `tests/` runs the library on concrete values.

What `app/` does not have: a GPU renderer. The renderer it runs draws nothing; it only
counts the render commands of each frame, so models, fonts, sprites and debug shapes are
not drawn. The game runs locally, one frame per update, without network play.
