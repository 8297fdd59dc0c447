# building_game

A small multiplayer building game. Players connect over WebSockets, each gets an
inventory of resources, and asks for tasks that workers carry out.

`src/` is the core: everything that decides or computes, verified with Verus.
It moves no messages and keeps no clock; its functions take what has happened
and say what is to be done.

- `actor::broker`: topics by name
- `actor::dispatcher`: requests of players, the task queue, the inventories
- `actor::inventory`: setting resources aside, taking them back, storing them
- `actor::worker`: when a worker takes up a task and when it ends
- `actor::shutdown`: in which order the game winds down
- `api::websocket`: a player's connection from handshake to end
- `persistence`: storage operations, the storage in memory, and what spans tell
  of them
- `ids`, `table`, `instrumentation`: identifiers, maps by name, trace carriers

The functions called `law_..` state what holds of several operations together:
that setting aside and taking back lose nothing, that a read gives back the last
write, that a connection removes the inventory it added, and so on.

`app/` runs the game: sockets, channels, timers, tracing and JSON. `tests/`
holds the tests of the core.
