# tui_torrent

The verified core of a terminal torrent client that searches torrent
indexes and drives a local aria2 daemon over JSON-RPC.

- `src/torrent_search.rs`: merging the answers of the two indexes, stable
  ranking by seeders and the result limit, with the laws that the ranking is
  unique, a permutation, and keeps the best-seeded results.
- `src/history.rs`: the bounded download history (newest last, at most 100
  entries), status updates by GID, and the location of the history file.
- `src/aria2_client.rs`: the JSON-RPC calls that are made to aria2 and the
  meaning of its replies.
- `src/session.rs`: the interactive session as a step function from state
  and event to actions (which request is served next, the status texts, the
  refresh and animation periods), with laws on how it waits for outcomes.
- `app/`: HTTP, JSON and file I/O around the library, the index clients, and
  a line-oriented terminal front end that runs the session loop.
