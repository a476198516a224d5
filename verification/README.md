# deemix_bot

The decisions of a Telegram bot that drives a deemix download server, written
and verified in Verus.

- `src/` is the library. It holds no I/O: each exchange with a server is a
  function that builds the request and one that reads the reply, and handling
  an update is a chain of steps that say what to do in the chat and what to
  wait for next.
- `app/` is the program around it: Telegram, HTTP, files and the clock.
- `tests/` runs the library on concrete values.

| module | what it decides |
| --- | --- |
| `text`, `json`, `table`, `pattern` | texts, JSON documents, keyed tables, regular expressions |
| `config`, `users`, `keyboards` | configuration and shared state, user settings, keyboards |
| `http`, `flow` | requests and uploads; messages, actions, work and steps |
| `deemix`, `ws` | deemix's API and its events |
| `spotify`, `youtube`, `titles`, `apple`, `supervisor` | what the other services answer; the titles of videos |
| `search`, `links`, `streaming`, `voice` | searches, links, playlists, voice notes |
| `menu`, `bot` | commands and keys; messages, taps and replies |
| `guarantees` | what holds of every update |

Contracts are stated over views: texts are sequences of characters, tables are
maps, and a step is the sequence of its actions with the work it waits for.

`takecell` is named in `Cargo.toml` only to hold it back. It comes with
`teloxide`, whose own range also admits a release that needs a newer compiler
than the one this crate is built with.
