# zarumet

A terminal client for the Music Player Daemon (MPD), with album art and
bit-perfect PipeWire sample-rate matching.

- `src/` is the library, verified with Verus: key bindings and key
  sequences, navigation through the queue and the library, the lazily
  loaded library and its album lists, the commands sent for each action,
  the update and reload decisions of the event loop, sample-rate
  selection, configuration checks, and the text and layout of every row
  the interface draws, with the caches behind them.
- `app/` is the program around it: command-line parsing, reading the
  configuration file, logging, the connection to the server and the
  terminal drawing. It performs what the library decides.
- `tests/` exercises the library on concrete values.
