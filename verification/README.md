# vim_mode

Vim-style modal editing for a terminal chat composer, verified with Verus.

- `src/keys.rs`: key events (key code, modifier bits, press/repeat/release).
- `src/vim.rs`: the editing state (`VimState`), what each key event does to it
  and which action it asks for (`handle_key`, stated by the spec function
  `step`), the motions applied to a text area (`apply_motion`, `find_in_line`,
  `clone_textarea`), and the laws proved of both.
- `src/textarea.rs`: a text buffer with a cursor and its cursor motions;
  positions handed out are byte offsets into the UTF-8 text.
- `app/lib.rs`: conversion from crossterm key events and drawing of the mode
  indicator with ratatui.
