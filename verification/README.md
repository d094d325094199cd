# claude_rust

A terminal coding assistant whose core is verified with Verus.

- `src/` is the library. Every function in it is proved against its
  `requires`/`ensures` contract: configuration keys and file formats, the
  `.clauderc` line format, file edits, SQL query building, caches with
  expiry and eviction, a consistent hash ring, Raft vote and log handling,
  distributed locks, collaborative sessions, the API gateway's routing and
  circuit breakers, the plugin and MCP server registries, image geometry,
  usage counts and the interactive command words. Laws that relate several
  calls are public proof functions named `law_*`.
- Calls into outside crates (md5, uuid, chrono, image, base64, serde_json)
  and into std where Verus has no specification sit behind small trusted
  wrappers whose doc comments say what is claimed of them.
- `app/` is the program around the library: command-line parsing, files,
  processes, settings held as fractions, and cost figures.
- `tests/` runs the library on concrete values.
