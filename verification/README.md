# tsukimi

The network layer of an Emby media-server client, split in two.

- `src/` is a Verus-verified library. It plans every call to the server
  (method, URL, query parameters, headers, JSON body, and which part of the
  reply the caller reads), decides which downloaded images are worth keeping
  and under which file names, and where listings are cached. Each builder
  states its call exactly; proof functions state the rules that hold across
  calls (session calls carry the access token and go to the server's API
  root; cached image names never collide for one item, and never collide for
  one kind of image across items; each playback event has its own address).
  - `text`: decimal rendering of integers.
  - `model`: the records the server returns, the session and the client identity.
  - `body`: the JSON bodies the client posts, and the direct-play device profile.
  - `request`: the shape of a call and the parameters calls share.
  - `endpoints`: one builder per call.
  - `images`: image addresses, the keep-or-drop rule and cache file names.
  - `cache`: cache directories and listing cache files.
- `app/` runs the planned calls with `reqwest` on a `tokio` runtime, parses
  replies with `serde_json` into JSON-named copies of the library's records,
  and writes the cache files.
