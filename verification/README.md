# ap_client

An [Archipelago](https://archipelago.gg) client for Dark Souls III and Sekiro,
written in Verus: what the client decides is verified, and the game, the network
and the screen are left to a thin layer around it.

## Layout

- `src/` is the verified library. It sees the game and the connection as plain
  values and answers with what to do.
  - `core_base` and `client`: the connection's events, the log, and when the game
    is acted on at all.
  - `ds3` and `sdt`: the two games. `ds3::laws` states what always holds of the
    first.
  - `items` and `inventory`: what is stored with a save, the items that the server
    sends, and the placeholders that the player picks up.
  - `command`, `overlay` and `colors`: chat commands, and what is drawn.
  - `section_profiler`: how long each part of a frame takes.
  - `text`, `print`, `log_buffer`, `config`, `error`, `clock`, `game`, `startup`:
    what the others are made of.
- `app/` is loaded into the games. It holds the connection, the clocks, the
  drawing and the games' memory.
- `tests/` runs the library.

## What is taken on trust

Only `indexmap::IndexMap`, in which the profiler keeps its sections: that it is
empty when new and once cleared, that a new key goes last, and that entries are
found by their keys and listed in order.
