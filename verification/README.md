# dumahhfiles

A small web front end for yt-dlp: a form posts a video address, the service
downloads the video with yt-dlp, answers with the file, and deletes it after a
retention time. A password can protect the service, and the storage used on disk
and the size of each file are limited.

Layout:

- `src/` — the library, verified with Verus:
  - `config.rs`: the settings read from the environment, with their defaults, and
    the argument lists handed to yt-dlp;
  - `ytdlp.rs`: the yt-dlp command lines, and the reading of yt-dlp's answers
    (file names, sizes, JSON metadata);
  - `request.rs`: the decisions taken while a download request is served, as a
    state machine from reports to actions, with its laws (address and password
    refusals do no work; what a reply releases equals what the request added to the usage);
  - `text.rs`: decimal numbers, `str::parse` for unsigned integers, `str::trim`;
  - `hashing.rs`, `error.rs`.
- `app/` — the HTTP server (axum), the yt-dlp process runner, environment and
  file I/O, and the retention-time computation in floating point.
- `tests/` — tests of the library on concrete values.
