# pingpong

A WebTransport ping-pong client and server whose decisions are verified with Verus.

- `src/` is the verified library. Each side of the conversation is a handler
  (`server::PingPongHandler`, `client::PingPongHandler`) that maps the outcome
  of its last read or write to its next action. The client's connect loop and
  the server's listen loop and per-session task are written the same way, as
  step functions in `src/web_transport/`. The contracts state each step
  exactly, and proof functions next to them state the laws of the conversation
  (every `ping` is answered with `pong`, a conversation only ends on a failure,
  the client retries every failure after one second, ...).
- `app/` holds the programs: it performs the network actions with `wtransport`
  and `tokio`, and feeds the outcomes back to the library's step functions.
  Run it with `server` or `client` as its argument.
