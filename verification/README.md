# voxparty

An isometric party platformer: players walk a grid of tiles, dodge traps,
touch checkpoints and race to the goal, with NPC dialogue, a debug overlay,
a developer console, input recording and replay, and QA health checks.

## Layout

- `src/` — the game's rules, verified with Verus. Each module states its
  behaviour in `requires`/`ensures` contracts over spec-level models
  (`Seq`, `Map`, integers), and the properties that span several calls are
  public proof functions (`lemma_*`).
  - `isom`, `collision`, `world`, `episode`, `player`, `npc`: grid, depth
    order, movement, traps, checkpoints and goals.
  - `scene`, `console`: the scene state machine, best times, and the
    developer console's parser and commands.
  - `input`, `clock`, `telemetry`, `health`, `debug`, `overlay_text`:
    recording and replay with UTC timestamps, batched event lines, QA
    checks, the debug overlay's state, text lines, layout and minimap
    colours, and the console's `state` answer.
  - `touch`, `audio`, `haptic`, `particles`, `sprites`: the decisions behind
    touch controls, sound, rumble, particle bursts and animation.
  - `font`, `tiles`, `sprite_gen`, `canvas`, `sprite_store`: the bitmap
    font, the generated tile and character sprite sheets (pixels through
    `image`), and the named-sprite store.
- `tests/` — ordinary Rust tests against the library.
- `app/` — the SDL2 program around the library: windowing, drawing,
  files, audio output, floating-point camera and screen projection.
