# streamboat desktop: verified view-model library

The decisions of the streamboat desktop shell (a TIDAL client), written in
Verus and proved against their contracts: what every screen does with each
message it receives, which requests it sends and which effects it raises;
navigation history; the image cache; the notification banner; the remote
link's reconnect policy; deep-link and search-result routing; the Snapcast
plugin's JSON-RPC dispatch; the single-instance decision; and the small
formatting rules the views and the command line rely on.

## Layout

- `src/` — the library. Each module states a view (a mathematical model) of
  its state type, gives every public function a contract over that view,
  and proves the laws that span several calls as public proof functions
  named `law_*` (navigation history, cache eviction, banner dismissal,
  reconnect back-off, playlist reordering, paging offsets, stale search
  results, the settings form's round trip, the lyrics highlight).
- `tests/` — executable tests of the library on concrete values.
- `app/` — the program around it: command-line parsing, the Snapcast
  plugin's WebSocket and stdin/stdout loop, mDNS discovery and file reads.
  It converts between wire values and the library's types and leaves every
  decision to the library.

Rendering (the widget tree), audio playback and the TIDAL API client are
not part of this crate.
