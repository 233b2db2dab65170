# mc-server-init

A tiny PID-1 init for game server containers. It runs the server behind a
pseudo-terminal, so that the server's console keeps its prompt and its line
editing, and on top of that

- passes the standard input and the commands from a named pipe on to the
  server's console,
- turns SIGTERM, SIGINT and a typed Ctrl+C into the server's stop command, and
  kills the server only if it overruns the timeout,
- passes a resize of the terminal on,
- exits with the server's exit code.

```sh
mc-server-init [--console-pipe PATH] [--stop-timeout SECS] [--stop-command CMD] -- <program> [args...]
```

Defaults: `--console-pipe /tmp/console-in`, `--stop-timeout 60`,
`--stop-command stop`.

## Layout

- `src/` decides. It is verified with Verus: `run` takes the program from its
  start to its exit code, `event_loop` supervises the running server, and the
  smaller modules judge single outcomes. `loop_laws` and `run_laws` state what
  holds of every course that these two can take.
- `app/` performs. It asks for the next action, makes the system call and hands
  the outcome back.
- `tests/` plays the two against scripts of actions and events.
