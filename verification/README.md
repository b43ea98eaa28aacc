# qq_bot

A QQ group bot built on kovi, with its decisions verified by Verus.

- `src/` is the verified library. It reads commands out of group messages, renders
  every answer the bot sends, parses docker and Caddy output, and drives the blue-green
  deployment, the rollback and the feedback changes as state machines whose steps are
  stated exactly. `deploy/safety.rs` holds what every deployment and rollback guarantees
  (traffic only moves to a healthy slot, the serving slot is only stopped after the switch,
  every run ends).
- `app/` is the program around it: the kovi plugins, SQLite, RabbitMQ, HTTP to the
  feedback back end, the docker and systemctl processes and the files on disk. It performs
  the actions the library asks for and hands back what happened.
- `tests/` runs the library on concrete messages, outputs and runs.

Configuration lives in `config.toml` (`[rabbitmq]`, `[database]`, `[feedback]`,
`[yqwork]`, and optionally `[deploy]`, `[chat_logger]`, `[daily_greeting]`, `[relay]`).
