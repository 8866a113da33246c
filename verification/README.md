# re_grpc_server

A gRPC message proxy: clients write log messages and tables, and every client that reads is sent what
the proxy remembers and then what arrives.

- `src/` decides, and is verified with Verus: what is remembered and for how long (`history`, `queue`,
  `static_key`, `size`), what is dropped from the live stream (`live`), what the server does with each
  event (`event_loop`), requests and streams (`service`), messages from and to the same process
  (`channels`, `relay`), who may connect (`cors`, `address`), and the texts of errors (`status`). What
  holds whatever is received stands in `laws`, `live_laws` and `client_laws`.
- `app/` is the server around it: sockets, channels, tasks, and the conversion between the messages on
  the wire and those of the library.
- `tests/` runs the library, with the encodings that the SDK writes.

## What is remembered

Store infos, blueprints and their activations stay for good. Static chunks stay as long as memory
allows, everything else goes first. With `drop_temporal_history` only that skeleton is kept: no limit
applies, an activation replaces all other blueprints, and a static chunk replaces the earlier ones of
the same entity.

## What is dropped live

With `live_temporal_budget_bytes`, recording data on a timeline is dropped while more than the budget
waits in the live queue, except for messages under 8 KiB, or while only the reserved slots are left.
The skeleton, tables and commands never are. A budget of 8 KiB or less, or of 128 MiB or more, drops
nothing for its bytes.
