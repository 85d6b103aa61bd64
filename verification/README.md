# battleship

The rules of a two-player, terminal Battleship game over TCP, written in
Verus and verified.

- `src/` is the library: boards, ships and shot resolution (`game`, with its
  model and invariant in `model`), counting (`tally`), the decisions of a
  match (`session`), ship placement (`placement`), menus and input checking
  (`menu`), what the screens show (`ui`), status texts (`text`), the network
  messages (`protocol`) and properties spanning several operations (`laws`).
  The trusted items are the calls into `rand` (in `random`) and the wrapper
  of `String::push` (in `menu`).
- `app/` is the terminal program around it: crossterm drawing and keyboard,
  TCP and JSON (serde) on the wire, and the game loops that hand each event
  to the library.
- `tests/` runs the library on concrete games.
