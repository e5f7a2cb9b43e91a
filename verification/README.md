# riichi_calc

A verified Riichi Mahjong hand evaluator. Given the tiles of a winning hand, its
calls and the state of the round, it checks the input for conflicts, reads the hand
as four melds and a pair (or as an irregular hand), confirms its structure (standard,
seven pairs, nine gates) and lists its yaku, yakuman and dora. Helpers compute basic
points, yakuman counts and the number of red fives a hand can hold.

Every function of the library carries a contract proved by Verus.

Layout:

- `src/tiles.rs`, `src/hand.rs`, `src/game.rs`, `src/input.rs`, `src/yaku.rs`: the data
  model and its tile order.
- `src/validate.rs`, `src/parser.rs`, `src/wait.rs`, `src/organize.rs`: input checks,
  the meld search, the wait shape and the hand organizer.
- `src/hand_tiles.rs`, `src/regular.rs`, `src/yakuman.rs`, `src/yaku_checker.rs`,
  `src/exclusive.rs`: tile helpers, regular yaku, yakuman and the yaku checker with its
  laws.
- `src/points.rs`, `src/akadora.rs`, `src/agari.rs`, `src/example.rs`: basic points,
  the red-five limit, the whole calculation and a sample hand.
- `app/main.rs`: a command-line program that evaluates the sample hand.
- `tests/`: scenario and unit tests.
