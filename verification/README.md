# Nine Men's Morris, verified

A library for the game Nine Men's Morris (with flying and undo), written in
Verus. Every executable function carries a contract that Verus proves.

- `src/color.rs` — the two sides.
- `src/board.rs` — the 24 points, the 16 mill lines, the neighbor table,
  and the spec functions on boards (counting, mills).
- `src/text.rs` — white space, words and unsigned numbers in text, and
  decimal digits.
- `src/action.rs` — actions, reading them from text (`"W P 0"`,
  `"B M 0 1"`, `"W R 5"`) and writing them back.
- `src/game.rs` — the rules as spec functions over positions
  (`action_outcome`, `action_step`, `undo_step`, `winner_of`) and the
  `Game` that implements them through the `NmmGame` trait.
- `src/laws.rs` — properties that span functions: undo reverts an action,
  refused actions change nothing, the bookkeeping invariant of play, and
  reading an action's text gives the action back.
- `tests/` — the scenario tests.
