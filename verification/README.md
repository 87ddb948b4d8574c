# any-games-discord-rich-presence

A daemon that shows Discord Rich Presence for any running game: it watches
the process table, picks the active game, resolves its title and cover art
(manual overrides, a local SQLite cache, VNDB, SteamGridDB, IGDB) and
publishes the presence over Discord's local IPC socket or named pipe.

## Layout

- `src/` is the library, verified with Verus. It holds every decision the
  daemon makes, each with a contract:
  - `text`: the character-sequence operations the rest is written in;
  - `sanitizer`: readable titles from executable names;
  - `config`: the configuration model, its defaults and its lookups;
  - `process`: executable-name normalisation, the game heuristics and the
    watcher that turns process-table snapshots into game changes;
  - `game_db`: the resolution order (override, cache, providers, fallback)
    as a state machine driven by the results of cache reads and requests;
  - `providers`: request URLs, headers and bodies of the metadata services,
    and what their answers mean;
  - `packet`: the Discord IPC frame format and the JSON payload model;
  - `ipc`: connection decisions and socket/pipe locations;
  - `manager`: presence payload assembly, Client ID choice and the
    manager's pause/current-game state;
  - `tray`: the tray menu's texts and commands, and the tray icon's pixels.
- `app/` is the program around it: command line, the SQLite cache, HTTP
  requests, process-table reads, the IPC stream, the tray icon and the
  daemon loops. It carries out what the library decides.
- `tests/` runs the library on concrete values.
