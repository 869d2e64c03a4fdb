# anki_tui

A terminal front end for reviewing Anki cards through the AnkiConnect add-on,
with its logic verified by Verus.

- `src/model.rs`: decks, cards and the four grades.
- `src/text.rs`: decimal notation, padding and the order of texts.
- `src/sort.rs`: sorting card ids and decks, with their laws.
- `src/connect.rs`: the AnkiConnect calls, the settling of a reply, errors
  and their messages.
- `src/html.rs`: card HTML to text, through `html2text`.
- `src/app.rs`: the application as a state machine: a key press or a reply
  leads to a new state and the next call to make.
- `src/screen.rs`: the texts the screens show.
- `src/laws.rs`: what holds over sequences of steps.
- `app/`: the terminal program: HTTP with `ureq` and serde, keys with
  `crossterm`, drawing with `ratatui`, and the loop that makes the calls the
  state machine asks for.
