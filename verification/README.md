# completion

Input completion for an IRC client, verified with Verus.

While a line is typed, the library offers:

- **command completion** for input that starts with `/`: the commands whose
  name starts with the typed word are listed and can be cycled through with
  tab; once the word is complete, the command (and, for CHATHISTORY and
  MONITOR, the subcommand) is selected and a hint shows its arguments, with
  the one being typed marked. The commands and their tooltips follow the
  server's ISUPPORT parameters (lengths, target limits, WHOX, SAFELIST,
  CHATHISTORY, MONITOR, ...);
- **word completion** otherwise: the word being typed completes to a channel
  (when it holds `#`, folded by the server's case mapping) or to a nickname
  (ignoring case), cycled through with tab, and `Entry::complete_input`
  rewrites the line with the chosen word.

## Layout

- `src/strings.rs` – character-sequence helpers (prefixes, searching,
  whitespace splitting, joining, decimal notation) and the two calls into std
  whose behaviour is taken on trust (`str::to_lowercase`, `String::push`).
- `src/isupport.rs` – the server parameters read by completion, the case
  mappings, and a keyed store of parameters.
- `src/command.rs` – commands, their descriptions, aliases and hints.
- `src/catalog.rs` – the commands on offer and how the parameters shape them.
- `src/commands.rs` – command completion as a state machine.
- `src/text.rs` – word completion.
- `src/completion.rs` – the two together, and line rewriting.
- `src/laws.rs` – properties proved across calls (tab and shift-tab undo
  each other, tabbing round the list returns to the start, stored
  parameters are read back, suggestions are exactly the matching ones, ...).
- `app/lib.rs` – draws what completion shows with iced widgets.
- `tests/` – scenarios run against the compiled library.
