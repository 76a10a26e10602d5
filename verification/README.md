# yew-webview-bridge

A bridge between a web frontend and the native backend that hosts it. The
frontend sends messages and gets futures for the replies. The messages go to
the host of a `web-view`, or over a websocket where there is none.

- `src/` is the library, verified with Verus: messages and their addresses
  (`message`), errors (`error`), what waiting tasks and arriving messages leave
  for each other (`waker`, `futures`), the services of the frontend
  (`frontend`), the replies of the backend (`backend`), the course of a
  websocket connection (`websocket`), and what holds of all that together
  (`laws`, `server_laws`).
- `app/` puts the library to work: json, the browser, `web-view` and websocket
  servers.
- `tests/` holds the tests of the library.
