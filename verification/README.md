# River

River is a small image viewer. This crate is its verified core, written in
Verus: `src/` holds the logic with its contracts and proofs, `app/` the
egui/eframe user interface around it, and `tests/` runs the library on
concrete images and inputs.

What `src/` proves:

- the viewer's state transitions (view-mode toggle, fullscreen, chrome,
  flips, shortcuts, menu entries) and their laws (toggles undo themselves,
  the view toggle alternates between fit-to-window and actual size);
- the keyboard shortcut priorities and which menu entries need an image;
- selection rectangles in image pixel space (sorted, at least one pixel,
  independent of corner order, and lying inside any non-empty image: the
  start is clamped onto the last pixel and the end onto the image size) and
  the pixels copied from them;
- the colour adjustment pipeline: brightness, contrast curve, channel
  offsets and gamma curve per colour sample, alpha kept, and for the
  regional variant every pixel outside the selection left byte-for-byte
  untouched;
- the cleaning of a pasted file path (with the Unicode `White_Space` set
  written out), and the window-edge and delay-load
  decisions.

The floating-point parts (screen geometry, zoom and pan, the contrast and
gamma curves' computation, saturation, rotation and resizing filters) live
in `app/`.
