# miner

The rules of a small voxel mining game, verified with Verus.

- `src/` is the library: mining progress and the backpack (`mining`, `player`),
  the heads-up display texts (`player`, `text`), the keys that open and close
  the shop (`input`) and the starting grid of cubes (`world`). Game time is
  counted in nanoseconds and mining progress in millionths of a block.
- `app/` is the game itself on top of the amethyst engine: rendering, physics,
  ray casts, input and the entity world; it hands the library plain values.
- `tests/` runs the library on concrete games.
