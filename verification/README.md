# ironbar_compositor

The decisions of a status bar's compositor client, verified with Verus.

The library in `src/` decides what each event of the compositor calls for, what subscribers are
told, which dispatchers a request calls and in which order, and how the buttons of workspaces look.
It performs no I/O: it takes the compositor's replies as values and says what to do next.

- `events`, `lookup`, `snapshot`, `subscription`: events about workspaces and windows, and the
  updates that subscribers receive (`workspace`)
- `history`: whole events, with every reply they lead to, and runs of them
- `client`, `config`, `address`: requests to the compositor
- `input`: keyboard layouts and binding modes
- `compositor`: which compositor is running, and which client serves which module
- `button`: CSS classes, window icons and clicks of workspace buttons
- `ipc`, `search`, `text`: what the compositor reports, and what the other modules share
- `laws`: what holds of the library as a whole

`app/` is the running side: the socket, the event listener, the broadcast channels and the GTK
widgets. `tests/` holds the tests of the library.
