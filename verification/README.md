# clai (verified core)

`clai` turns a natural-language request into a JSON command proposal, checks it against a
safety policy, shows it, and may run it (directly, in Docker, or under bubblewrap).

- `src/` is the library, written in Verus: every function carries a contract that Verus
  proves. It holds the policy, the proposal framing and presentation, the interactive-session
  and `clai ask` decisions, configuration defaults and path resolution, the model registry merge
  and lookups, the TOML edit that remembers trusted programs, and the exit-code mapping.
  Calls into std and outside crates (`toml`, `hex`, path handling) sit behind small trusted
  wrappers whose contracts are documented where they are declared.
- `app/` is the `clai` program: command-line parsing (`clap`), configuration files and
  environment (`figment`, `toml`, `serde`), prompts (`inquire`, `rustyline`), terminal styling
  (`console`), HTTP (`ureq`), model downloads (`hf-hub`, `sha2`, `indicatif`), and process
  execution (`wait-timeout`, `libc`). It asks the library for every decision.
- `tests/` exercises the library with concrete values.

Local GGUF inference is not part of this build: the `llama` backend is not included, so a
request answered by the local model always ends in an error that says so. Use the cloud
backend instead (`clai ask --cloud` with `[cloud] enabled = true` and an OpenAI-compatible
endpoint in the configuration).
