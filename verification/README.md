# twitchchat

A Twitch chat reader and scraper. It reads the chat of a channel (also when
the stream is offline), shows each message with the sender's name in color,
can log the chat to a file, and stores the OAuth token and client ID it needs.

## Layout

- `src/` — the verified library (Verus):
  - `config.rs` — the operation chosen on the command line and the configuration;
  - `credentials.rs` — the stored token and client ID and their check;
  - `privmsg.rs` — the grammar of a tagged `PRIVMSG` line, its leftmost-first
    search semantics as spec functions, and a parser proved to follow them;
  - `message.rs` — chat messages: reading, terminal line, log line;
  - `irc_chat.rs` — the client's decisions: login lines, login replies,
    chat lines, reconnection, keys;
  - `twitch.rs` — the Helix channel search request and the reading of its reply;
  - `logger.rs` — the log file name;
  - `text.rs` — character helpers (substring search, decimal numbers).
  - `lib.rs` — `run`, what the program does for a configuration.
- `app/` — the program: command line (clap), files and JSON (serde), HTTP
  (reqwest), IRC socket, terminal keys (crossterm), printing.
- `tests/` — tests of the library; the chat-line parser is compared with the
  `regex` crate running the same pattern.
