# Ascendia Online — game rules

Server-authoritative rules of an idle squad battle RPG, written in Verus and proved
against their contracts.

- `src/` — the verified library: progression and experience, drop rarity, the duel and
  wave state machines, enemy tables, stage and tower rewards, offline rewards and their
  idempotent receipts, VIP levels, arena, marketplace, auctions and trades, guilds,
  cosmetics and enhancement, rate limits, chat input handling, account checks
  (e-mail normalisation, refresh-token hashing, OAuth account linking, second factor),
  Argon2 password hashing, RS256 access tokens and session revocation, awakening and
  enchantment rules, and the combat replay protocol. Each module states its rules as
  spec functions and proves the executable code against them; the laws that span
  several functions are public proof functions. Where a rule rests on an outside crate
  (Argon2, RS256 signatures, SHA-256, ChaCha8, random draws), the contract says what
  that crate's source shows and names the rest.
- `tests/` — tests on concrete values, including the scenarios the rules were designed
  around.
- `app/` — the HTTP server around the library: the authentication, combat, inventory,
  character and squad endpoints, configuration, PostgreSQL and Redis access (including
  the revoked-session marks), the floating-point parts of combat, stats and enchantment
  values, and the WebSocket replay.
