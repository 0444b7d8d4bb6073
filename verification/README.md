# zn

A zero-trust security layer for AI agent tool calls: JSON-RPC tool calls
from an agent are screened (PII scrubbing, managed rule sets, image guard,
result cache, reputation and bans, loop breaking, M-of-N consensus, policy
modules) before they reach a tool, and every decision is audited.

## Layout

- `src/` — the library, written and verified with Verus. Every public
  function carries a contract; laws that span functions are public proof
  functions (`lemma_*`). Calls into outside crates (regex, aho-corasick,
  dashmap, lru, sha2, hex, base64, aes-gcm, argon2, ed25519-dalek,
  pqcrypto, uuid, rand, chrono) go through small trusted wrappers whose
  contracts are documented next to them.
- `tests/` — tests of the library on concrete values.
- `app/` — the `zn` program: command line, configuration file and
  environment, the stdio proxy loop, the MCP stdio server, SQLite storage
  of audit entries, tenants and models, Prometheus metrics, OCR through
  the `tesseract` program, webhook and SIEM delivery, and the floating
  point parts of the neural layer.

## Commands

- `zn start` — run the proxy on stdin/stdout.
- `zn analyze [text]` — print the verdict for a text (stdin when empty).
- `zn mcp` — serve the `analyze_prompt` tool over MCP stdio.
- `zn shield scan` — report locally exposed MCP ports.
- `zn init` — write a default `zn.json`.
