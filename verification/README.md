# skyspace

The logic of *Skyspace*, a survival city-building roguelike on a layered
world seen from above:
the world is generated from terrain samples (rock, water, biomes, plants,
soil), animals wander it, drink, eat, hunt and flee, and the player moves
the view through its levels and gives orders through menus.

`src/` is the library, verified with Verus: every public function states
what it returns or changes, and the laws of the library (what a sequence of
calls keeps or undoes) are proof functions beside the code they speak of.

- `worldgen` — the map and its generation steps, the world's state and the
  turn of its animals; `worldgen::terrain` holds the tiles.
- `life` — animals, their goals and missions, what they see and do, and the
  keeper of all animals.
- `physics`, `time`, `utils` (path finding, distances, adjacency), `text`,
  `rng` (the calls into `rand`).
- `draw`, `ui`, `view`, `game` — what the screen is asked to show, the
  buttons and menus, and the game's screens driven by keys and the mouse.

`app/` is the program around it: the libtcod console and its input, and the
sampling of libtcod's heightmap and noises, which work in floating point.

`tests/` holds the tests of the library on concrete values.
