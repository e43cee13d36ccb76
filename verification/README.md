# battery_deck

A charge-limit toolkit for Apple Silicon Macs: a privileged helper daemon
keeps the battery between two thresholds by switching charging and the power
adapter through the SMC, and a desktop app shows the battery state and drives
the helper over a Unix socket.

The library in `src/` is verified with Verus. It holds:

- `text`: the string model the parsers are specified over (trimming, lines,
  words, decimal numbers);
- `battery`: the data model, settings validation, and the parsers for the
  `pmset`, `ioreg` and `system_profiler` reports;
- `smc`: SMC key requests and replies, the key probe and the write
  fallbacks;
- `helper`: paths, peer access, connection limits and the helper log;
- `daemon`: the charging policy and the helper's request handling as a
  state machine, with its laws;
- `service`: quoting, launchd property lists, install scripts, the start
  sequence and the service status;
- `update`: the updater's status transitions;
- `ui` and `tray`: labels, the dashboard state and the tray menu.

`app/` is the program around it: the socket server and poll loop that perform
what the state machine asks for, file and process I/O, the IOKit calls, and
the JSON types. Tests are in `tests/`.
