# haak

The decisions behind the HaaK panels of the editor, verified with Verus: a chat panel on a session
server, a browser for the entities of an ontology database, and the connection through which the
editor's agent panel talks to the same server.

- `src/` is the library. It opens no window, socket or database: it is told what happened and says
  what to do.
  - `text`: string operations with exact meanings
  - `message`: the JSON messages of the session protocol
  - `socket`: the driver of the session socket
  - `connection`, `agent_server`: sessions and prompts of the HaaK agent
  - `chat`: the chat panel
  - `ontology`: the ontology panel
  - `panel`: colours, icons and dock positions
- `app/` is the editor's side: windows, threads, the WebSocket and SQLite.
- `tests/` run the library.

JSON is read and written by `serde_json`; `message` states what is trusted of it. Everything else in
the library is proved.
