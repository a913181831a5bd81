# mazonic

The rules of mazonic, a puzzle game of mazes drawn on the faces of the
Platonic solids, as a library verified with Verus.

- `src/` holds the verified library: the level tables and the borders between
  faces, the maze graph and which passages are drawn, the notes of the rooms
  and the melody hidden in each level (its JSON form, its key and the sealed
  melody), the play statistics and the working level, the save, the level
  selector, and the loading of daily levels. The seeded edition of the game
  (`src/seeded/`) has its own levels, save, selector and controller.
- `tests/` runs the library on concrete values.
- `app/` is the command line around it: it reads and writes the save file,
  reads level files, downloads the daily levels, and does the floating-point
  geometry.
