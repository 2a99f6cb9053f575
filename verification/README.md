# tetris

The game logic of a falling-block puzzle, verified with Verus, and the
program around it.

- `src/` — the verified library:
  - `world/block_data.rs`: the field of settled blocks (twenty rows of ten
    cells) with its invariant, that each row's count is the number of blocks
    in it; placing, finding, clearing and taking out rows.
  - `component/dyn_block.rs`: the moving piece, its orientation and the spans
    of cells its turns sweep.
  - `world/`: the frame's input, its requested moves, the blockage and the score.
  - `system/`: the per-frame decisions — key repetition, physics, gravity,
    settling, clearing full rows, spawning.
  - `text.rs`: decimal rendering of integers.
- `app/` — the program: the game engine's states and systems, which read the
  world, call the library and carry out what it decides.
- `tests/` — tests of the library.

Positions are whole pixels (a cell is 45 pixels wide); durations are whole
microseconds.
