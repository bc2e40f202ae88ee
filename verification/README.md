# brew_tui

A terminal interface for Homebrew: browse installed formulae and casks,
search them, see details and dependency trees, and update, remove, pin or
clean up packages after a confirmation.

## Layout

- `src/` — the library, verified with Verus:
  - `app.rs`: the application state, its abstract view (`AppState`), and
    every transition (`after_action`, `after_poll`) as spec functions that
    the executable methods of `App` are proved against; the filter cache
    and its well-formedness; laws about navigation, toggles, confirmation
    and background operations.
  - `keys.rs`: which action a key press asks for in each input mode.
  - `actions.rs`: the actions and the confirmable operations with their
    messages.
  - `commands.rs`: the `brew` commands (arguments, name validation, what
    their output means), loading the package lists, and reading
    `brew info` JSON.
  - `view.rs`: what each part of the screen shows, as plain text.
  - `text.rs`: substring search, lowercasing, UTF-8 safe truncation,
    trimming, joining and line splitting.
  - `types.rs`: the package data and how a package is presented.
- `app/` — the program around the library: the terminal, the event loop,
  running `brew`, JSON decoding of the package lists, and drawing with
  ratatui.
- `tests/` — tests of the library on concrete values.
