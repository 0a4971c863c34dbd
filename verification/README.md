# chess2lichess

`c2l` turns a chess.com game URL into a lichess analysis URL: it finds the
game's PGN (the callback endpoint, the players' monthly archives, the game
page), imports it through the lichess API and prints, copies, saves or
opens the result.

## Layout

- `src/` is the verified library:
  - `text`, `json`, `patterns`: characters, trimming and lines; JSON values
    as `serde_json` parses them; the two `regex` searches.
  - `chesscom`, `fetch`: game URLs, archive lookups, and the order in which
    a PGN is searched for, as a state machine that says which request to
    make next.
  - `pgn_extract`, `tidy`, `metadata`, `eco_table`: finding a PGN in a page,
    tidying it, and reading its tags, move count and opening name. The
    opening table names every ECO code from `A00` to `E99`; a game whose
    name is unknown is labelled by its ECO code, or `Unknown opening`.
  - `lichess`: reading the import API's answer.
  - `app`, `style`, `tui`, `cli`, `error`: options, retries, the JSON, CSV
    and text outputs, colours, and the terminal UI's state.
- `app/` is the program around it: argument parsing, HTTP, files, the
  clipboard, the browser and the terminal.
- `tests/` runs the library on concrete inputs.
