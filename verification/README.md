# simchopper

The rules behind a helicopter game set in a city built from a city file: the terrain's
slopes and the surfaces built from them, the repair of slopes that do not fit, the road
network that cars drive on, the placement of the city's buildings, the game clock, the
controls, and the editor's import and baking tools.

- `src/` is the library. Every function in it carries a contract that Verus proves; the
  few calls into `rand`, `regex` and `itertools` go through small wrappers whose contracts
  say what the library relies on.
- `tests/` runs the library on concrete cities, networks and inputs.
- `app/` is the engine side: floating-point geometry and effects, the loops that wait on
  time or chance, the processes the editor starts, and reading the city from the engine's
  dictionaries.
