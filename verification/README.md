# tary

A personal assistant: sources (an HTTP form, chat commands) create todo
items, a middleware pipeline rewrites them, and destinations (the console or
a log file, a USB receipt printer) deliver them.

- `src/` is the library, verified with Verus: the configuration model, items
  and times, the sources' and destinations' set-up, the HTTP todo endpoint's
  item building, the regex middleware pipeline, the console text, the receipt
  layout and the printer's retry policy (a state machine with proved laws).
- `app/` is the program around it: argument parsing, the configuration file,
  the HTTP server, the broadcast channel, and the console and printer loops
  that perform what the library decides.
- `tests/` exercises the library on concrete values.
