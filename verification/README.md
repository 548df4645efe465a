# proxymore

The decisions of an intercepting proxy for HTTP(S) and WebSocket traffic, written in Verus: where a
request goes, what the proxy answers itself, how an exchange is held back, edited and recorded, and
what is handed out of the record. Each function states what it does, and Verus proves it.

## Layout

`src/` is the verified library.

| module | what it holds |
|---|---|
| `launch`, `emulation` | what the command line comes to |
| `server`, `response` | settings, routes, the answers of the proxy itself |
| `flow`, `exchange` | the course of an exchange, as a machine from event to action |
| `tunnel`, `relay`, `body` | tunnels, WebSockets, bodies that pass through |
| `state`, `tables`, `traffic`, `message` | what is recorded |
| `rules`, `edit`, `headers`, `uri`, `json` | rules, edits, header fields, URIs, JSON |
| `export` | handing the record out |
| `text` | texts and numbers |
| `laws` | what holds of the proxy as a whole |

Calls into other crates stand in small wrappers marked `external_body`; the doc comment of each says
what is taken for granted of the call.

`app/` is the program around the library: the command line, sockets, TLS, files, and the client that
reaches destinations. It runs the machines of the library: it performs an action and hands back the
event. Certificates, filters, rendering and the terminal interface come to it through the trait in
`app/surroundings.rs`.

`tests/` runs the library from outside.
