# ascending

The game logic of the Ascending game server, written in Verus. Every
executable function in `src/` carries a contract that Verus proves, except
the small wrappers around outside crates (chrono, regex, rand, indexmap,
slotmap), marked `external_body`, whose contracts Verus takes on trust.

## Layout

- `src/gametypes` – positions, map positions, directions, the game clock,
  entity components and the server's errors.
- `src/maps` – map grids and their blocking, map actors (loading maps, item
  spawn points, despawning), drop placement, NPC spawn passes, the search
  for a position across neighbouring maps.
- `src/gameloop` – the game loop's scheduler and the decisions behind every
  client packet: accounts and logins, movement and combat, items, bank and
  shops, trades, chat.
- `src/ipc`, `src/logins` – framing of length-prefixed packets on IPC and
  login connections, and the registry of online players.
- `src/identity` – world entity keys and the table that hands them out.
- `src/items`, `src/containers`, `src/database` – item, shop, player and
  stored map data.
- `app/` – the program around the library: settings, logging, loading the
  data files, and the tasks that run the clock, the player registry, the
  entity key table and the maps.
- `tests/` – tests of the library on concrete values.

Public `proof fn lemma_*` items state the laws the library keeps across
calls, such as a login followed by a logout leaving the registry as it was,
or packets written with their length words being read back unchanged.
