# Oh My Limit

A terminal front end for Codex (`codex app-server`) that shows the account's
rate limits and can translate prompts (Korean to English) with a local or an
opt-in remote translator before they are sent.

## Layout

- `src/` — the library, written in Verus and verified: the JSON-RPC messages
  and how server messages are read, the settings and the `.env` file format,
  the translator back ends' requests and replies, and the terminal
  interface's state machines (composer, command popup, model and translator
  pickers, transcript, key bindings, dashboard texts).  Every public
  function carries a contract; the laws that relate several functions are
  public proof functions (`lemma_*`).
- `app/` — the `oml` program: process and network I/O, the Tokio event loop,
  the settings file's TOML form, and the drawing with ratatui.  It asks the
  library what each key, command and server message means.
- `tests/` — tests of the library on concrete values.

## Commands

```text
oml doctor            check the local codex installation
oml codex             open the terminal interface
oml codex run <text>  send one prompt and print the answer
```
