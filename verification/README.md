# nih_plug_egui_test

A stereo gain plugin with an egui editor, split in two:

- `src/` is the verified library. `editor` holds the state the editor shares with the
  host (window size, pending resize request, open flag, resize-drag start, scale
  factor) and the steps that move it on; `resize` the rules of the corner resize
  handles; `widgets` what the widgets show (colours, labels, counts); `theme` the
  editor's theme; `color` the palette; `text` decimal formatting of row labels.
- `app/` is the plugin around it: nih-plug glue, the baseview window, egui drawing and
  everything in floating point.
