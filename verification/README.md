# kicad_sch_ui

The decisions of the application shell around KiCad's schematic editor, with
contracts proved by Verus: which tools exist and how they present, how KiCad's
key names become keystrokes, which commands, menus and key bindings a live host
offers, where an invoked action goes, the active tool and the events the host
hears about it, what a press, drag and release of the pointer report, the grid
and the display units, the dialogs the shell keeps open, and the forms of its
workflow dialogs.

## Layout

- `src/` — the verified library. Each module states its behaviour over spec
  functions and proves it; the public proof functions (`lemma_*`) state the
  properties that span calls, such as the key map never binding one keystroke
  twice, every palette tool's action activating that tool, and a press of the
  pointer being reported as down, at most one drag, and up.
- `tests/` — tests of the library on concrete values.
- `app/` — the toolkit side: typed actions, key bindings and menus built from
  the library's plans, the events handed to the host with their positions,
  and the floating-point presentation of coordinates, frame times and colours.
  It builds against the gpui toolkit crate of the editor's workspace.
