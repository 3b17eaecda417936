# niveluno

The game-side logic of the niveluno engine and of its map compiler, as a
Verus-verified library, with the game's window, renderer and frame loop as
an ordinary Rust application around it.

- `src/` — the library: compiled-map loading (`map`, `level`, `mesh`,
  `payload`), the compiler's interning tables and scene reading
  (`big_buffer`, `interning`, `compiler`, `texture`), the entity catalogue
  and parameters (`instance`, `entity_params`, `equipment`, `gcyl`,
  `banner`), and the per-frame state (`input`, `time`, `g_game`, `game`).
  Floats are held as their bit patterns.
- `tests/` — tests of the library on concrete values.
- `app/` — the game program: SDL window and events, the GL renderer, and
  the frame loop.
