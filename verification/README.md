# streamvault

The core of StreamVault, a small private video streaming service: upload a
video, get a token-based share link, stream it at once by HTTP byte ranges,
and by HLS once a background remux has finished.

`src/` is a Verus library holding the service's decisions and text formats,
each with a contract proved by Verus:

- `range` — reading the `Range` request header;
- `stream` — responses of the byte-range, playlist and segment endpoints;
- `upload` — accepting an upload, naming its stored file, the 1 GB limit;
- `media` — accepted media types, type inference, stored extensions;
- `token` — share tokens;
- `models` — stored records, client responses and their links;
- `transcode` — the `ffmpeg` command line and what follows a run;
- `error`, `config`, `text` — errors and their statuses, settings,
  string and decimal helpers.

`app/` is the HTTP server around it (Axum, SQLx/SQLite, Tokio, `ffmpeg`
subprocess); `tests/` exercises the library.
