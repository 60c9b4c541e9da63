# bowdraw

Game logic of a small top-down archery game, verified with Verus.

- `src/synchro.rs`: object identifiers whose low bits name the owning player,
  and the per-player generator that hands them out.
- `src/controls.rs`: movement axes, key bindings, key press/release handling and
  double-tap detection.
- `src/drawing.rs`: the mouse gesture that nocks, draws and releases an arrow.
- `src/arrows.rs`: removal of landed arrows from the list of arrows in flight.
- `src/assets.rs`: the image asset set.
- `app/`: the game itself (window, sound, rendering, arrow physics in floating
  point) built on `ggez` around the library.
