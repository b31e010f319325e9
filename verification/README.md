# automate

A macro recorder: it records key presses, mouse buttons, mouse moves and
scrolls as keyframes on a timeline, lets the user edit them, and plays them
back.

The library under `src/` holds the recorder's logic, with machine-checked contracts:

- `sequencer` — the timeline editor: selection (click, ctrl-click, drag,
  rectangle select, keyboard navigation), copy, cut, paste, delete, the
  playhead's per-keyframe play states, recording start and stop, reordering.
  Every operation keeps one play state per keyframe (`wf`).
- `selection` — binary search over sorted identifiers, and the index lookups
  the editor uses.
- `archive` — the saved file's layout: the first entry holds the state,
  each other entry a screenshot named by its keyframe's identifier, and
  loading reads those names back.
- `recorder` — turns raw input events into keyframes while recording.
- `playback` — what simulating a keyframe does at its start and end, and
  what happens when playback reaches the end.
- `keyframe`, `keys` — keyframes, keys and buttons, their labels and the
  parsing of typed key names (names and keys correspond one to one).
- `session` — file state: untitled or named, saved or not, and the
  save-before-closing dialog.
- `settings`, `shortcuts` (including which clipboard shortcut a frame
  acts on), `icons`, `uid` — keybinds, keyboard shortcuts,
  icon glyphs and fresh identifiers.
- `laws` — properties that span several operations.

`app/` is the egui application around it: windows, drawing, file I/O,
input capture and simulation. `tests/` runs the library on concrete values.
