# randommenu

A mod menu for Gorilla Tag (PC/Mono build), split into a verified library
and the native glue around it.

- `src/` — the library, verified with Verus:
  - `gamemode.rs`: game-mode and result codes, with their round-trip laws;
  - `netplayer.rs`: player records with NUL-terminated UTF-8 name buffers,
    and the law that a stored name reads back unchanged;
  - `cinterface.rs`: how the C interface fills caller buffers and arrays and
    finds a player by actor number;
  - `menu_state.rs`: the menu's state machine (saved bitmask, per-frame
    transitions, API readiness) and its laws;
  - `mods.rs`: the mod table and the effect of switching each mod;
  - `ui.rs`: button labels, styles and id lookups;
  - `hook.rs`: the byte layout of an inline hook's jump and trampoline;
  - `loader.rs`: the loader's settings and download accumulation.
- `app/` — ordinary Rust: the Mono runtime bridge and the exported gorilla
  API, the menu library's exported functions, rendering and input, the
  settings files (serde), and the loader's download and library loading.
- `tests/` — tests of the library on concrete values.
