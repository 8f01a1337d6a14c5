# giskard_harness_codex

A harness for the Codex app-server: it turns the messages of the app-server into events of
threads, and what callers ask into requests of the app-server.

- `src/` holds the rules, each function with a contract that Verus proves: routes and their
  custody (`route_model`, `routes`, `native_routes`, `discovery`), the mapping of messages to events
  (`mapper_model`, `mapper`, `items`, `approval`, `diff`, `turn_error`), what goes on with an
  app-server (`background`, `control`, `opening`, `turns`, `instance`, `attaching`), the wire
  (`frames`, `transport`, `rpc`, `requests`, `scope`, `json`, `reading`, `wire_items`,
  `wire_notifications`, `wire_requests`, `decode`, `answers`), lists (`catalog`), uploads, queues
  and versions. The modules `route_laws` and `mapper_laws`, and proof functions whose names start
  with `law_` elsewhere, state what holds across calls.
- `tests/` runs the rules on values.
- `app/` is the process, the pipes, the clocks and the channels around them.

Time, fresh identifiers and the answers of the app-server are arguments: every rule is proved for
all of them.
