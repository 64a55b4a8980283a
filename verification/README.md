# devilutionx

Game logic of a Diablo engine, written in Verus: every function in `src/`
carries a contract that the verifier proves.

- `src/` — the verified library:
  - menus (`gmenu`, `gamemenu`), the help screen, load-screen progress and
    cutscenes (`interfac`), sound-effect bookkeeping (`effects`), floating
    damage numbers, game-mode state, start-up checks (`init`), the cursor,
    keyboard and mouse input;
  - the world state (`game_state`, `player`, `objects`): the hero's vitals,
    gold and starter weapon, the camera, loot on the floor and its pickup,
    firebolts cast, the stairs cooldown, death and resurrection, level-up,
    the town dwellers and their shops, doors opening and shutting, commands
    from other players (walking and spells; attacks and door syncs are
    named for the caller), pending sounds, the town and dungeon grids;
  - dungeon levels (`dungeon_level`): the micro-tile grid stamped from a
    generated 40x40 level with its transparency regions and solidity table,
    and the doors and lights its pieces place;
  - the game loop's decisions (`game_loop`): the town grid built from its
    sector templates, the up stairs of a dungeon level, walking, click-to-move,
    stair transitions, the shop panel's layout and clicks, picking the tile
    under the mouse, the handling of each window event, and each frame's
    steps on and between the half-second logic ticks, and the numbers the
    character panel shows.
- `app/` — what stays outside the verifier: process-wide state, the file
  system, floating-point display values, SDL events and the loop that feeds
  them to the library.
- `tests/` — tests run against the compiled library.

## What is not here

Some of the engine's parts rest on modules that this project does not
contain, so the logic that needs them is absent from both `src/` and `app/`:

- dungeon generation (the level generators, their transparency flood fill
  and the static lights) and descending into a new level: the library
  stamps the grid of a level the caller generated, and says when the hero
  asks to descend;
- saving and loading (the save-file writer and reader, and the monster,
  light, quest and item managers they serialise);
- monsters, combat, missiles' effect on monsters, the animation of objects,
  quests (the witch's), the spells known by the hero and items beyond the
  starter weapon: operating a door takes the tiles of the living monsters
  from its caller;
- drawing: the viewport, the HUD, the panels (character, quests, spell book,
  shop, automap) and the death overlay, which need the window and font
  modules;
- the screen projection of a world tile: `convert_screen_to_tile` takes the
  point at which the camera tile is drawn from its caller.

`GameState` here holds plain values for what the logic above reads: it has
no monster manager, sprites, lights, quests or dungeon seeds, so it is made
from a hero and the town dwellers rather than from a game seed.

Arithmetic that the engine does in `i32` is bounded only where it would
overflow: `click_fits_check` and `frame_fits_check` tell the caller
whether a click or a frame is safe to hand to the library.
