# lg_webos_client

A client for LG webOS TVs, split in two:

- `src/` is the library, verified with Verus: the commands and the requests
  that carry them (`command`), the ids of requests (`ids`), the table of
  requests that wait for an answer (`pending`), the registration handshake, the
  routing of answers and the luna-call steps (`client`), and the serde_json
  operations they use, each behind a wrapper with a contract (`json`).
- `app/` holds the websocket connection (`WebosClient`): it performs the I/O
  and the waiting, and asks the library for every decision.
