# tranrss

An AI-assisted RSS reader: a server that syncs feeds, translates and
summarises articles, and speaks the Google Reader and Fever protocols, with a
command line and terminal interfaces around it.

- `src/` is the library, verified with Verus: feed reading and HTML block
  extraction, article stitching, the Google Reader and Fever query planning and
  answers, OPML import and export, job listing, the AI request planning and
  reply reading (batching, retries), accounts, access keys, the JWT secret,
  configuration, the terminal interfaces' key handling and texts, and the
  shared RSS feed. Calls into outside crates (`feed-rs`, `scraper`,
  `base64`, `bcrypt`, `md5`, `magic-crypt`, `serde_json`, `html2text`,
  `chrono`, `rss`, `mime_guess`, `urlencoding`, `hex`, `rand`) stand behind
  small trusted wrappers whose contracts name or state their results.
- `app/` is the program: the HTTP server (axum, sqlx, apalis), the workers,
  the HTTP and AI requests (reqwest), the terminal drawing (ratatui,
  crossterm), the command line (clap) and the configuration file (toml). It
  hands the library plain values and acts on what comes back.
- `tests/` runs the library on concrete values.
