# hltas_editor

A graphical editor for Half-Life TAS scripts (`.hltas`). The editing logic lives in a
library whose behaviour is stated in `requires` / `ensures` contracts and proved with Verus;
a thin imgui program drives it.

## Layout

- `src/` — the verified library:
  - `model` — plain values for script properties and the float-free settings of a frame bulk.
  - `script`, `hltas_text` — a script as properties plus `hltas` lines, and conversions to
    and from `.hltas` text (reading and writing is done by the `hltas` crate).
  - `menu_state`, `undo_redo`, `file_tab`, `tabs` — per-tab selection and menu state, the
    undo / redo history, the open tabs and the recent files.
  - `jump_duck`, `editors`, `strafe`, `labels`, `new_line_menu` — the decisions of the frame
    bulk editors and the new-line menu, and the texts of the compact editor buttons.
  - `raw_hltas`, `raw_tab` — a script held as text fields.
  - `keyboard`, `goto_menu`, `input_usize`, `option_menu`, `property_field`, `locale_lang`,
    `text`, `sequences` — keyboard state and shortcuts, small windows and fields, and the
    sequence facts the proofs share.
- `tests/` — tests of the library on concrete scripts.
- `app/` — the program: window setup, menus, the graphics editor's widgets, the options file
  and file dialogs.
