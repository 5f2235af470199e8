# herdr (verified core)

The interface-language and keybinding-help logic of the herdr terminal
workspace manager, written in Verus.

- `src/text.rs`: character-level helpers (white space, trimming, ASCII case,
  cutting at separators, substring search), each proved against a spec function.
- `src/i18n.rs`: languages, reading language codes and locales, choosing the
  language from `LC_ALL` / `LANG`, the language cache, and the translation table.
- `src/keybind_help.rs`: the content of the keybinding help overlay: groups and
  entries, abbreviation of indexed shortcuts, case-insensitive search, and the
  layout of the overlay's lines, its title, search row and footer, its size
  check and its scroll state.
- `app/`: the process-wide language cache and environment access, and the
  conversion of help lines to ratatui lines.
- `tests/`: executable tests of the library.
