# xai-grok-pager (verified core)

The pager's default key map, its slash commands `/mcps`, `/rename` and
`/terminal-setup`, and its settings catalog, written in Verus with contracts
and laws.

- `src/keys.rs`, `src/terminal.rs`: key bindings and the terminal/host facts
  the key map depends on.
- `src/actions.rs`, `src/defaults.rs`: the action table and the ordered default
  key map; `src/keymap_laws.rs`: its laws (each action once, no shared key
  within a context, Ctrl+. only picks the advertised primary, ...).
- `src/slash.rs`, `src/terminal_setup.rs`, `src/text.rs`: slash commands, the
  terminal-setup report, trimming and decimal numerals.
- `src/settings.rs`, `src/settings_laws.rs`: the settings catalog and its laws
  (unique keys, enum defaults among their choices, group children registered,
  integer defaults in range).
- `app/lib.rs`: the build-target facts (`cfg!`) that complete the terminal facts.

Two details are this library's own choices, because the surrounding code that
would fix them is not part of it: the list of Shift+Tab encodings in
`keys::shift_tab_keys` (BackTab without modifiers, then BackTab+SHIFT and
Tab+SHIFT), and the reading of a binding written as a bare character such as
`D` as that character with no modifier held (`KeyBinding::plain`).
