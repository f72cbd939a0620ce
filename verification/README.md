# dmnd_client

A Stratum mining proxy whose decisions are verified with Verus.

- `src/` is the verified library. It holds the job declarator, the share
  accounter, the limit and the validation of shares, the relays of miners'
  messages, the monitoring of shares, the start of the translator and the update
  of the program, each as functions from state and event to next state and
  action. Every function states what it returns and changes; properties that
  relate several functions are public proof functions beside them.
- `app/` is the program's plumbing around the library: sockets, timers, tasks,
  locks and files.
- `tests/` runs the library on concrete values, with the outside crates linked.

Calls into outside crates that the decisions depend on stand behind small
functions marked `external_body`, whose doc comments say what is taken for
granted about each call.
