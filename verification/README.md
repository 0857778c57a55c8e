# remolino_inventario

Authentication, user administration and start-up rules of the restaurant
inventory desktop application, written in Verus and proved against their
contracts.

- `src/` — the verified library:
  - `errors` — the error contract (stable code, safe message, optional
    details, technical text that is never serialized);
  - `text` — Unicode whitespace trimming, ASCII lower-casing, hexadecimal
    encoding, substring search;
  - `auth` — roles, identities, secrets, user-name/display-name/password
    rules, Argon2id hashing and verification, session lifetimes, and the guard
    that keeps an active administrator;
  - `auth_service` — the service's decisions: failed-log-in delays, log-in
    verdicts, sessions, authorization, administrative checks, row decoding and
    the start-up sequence;
  - `status` — the start-up status and database-initialization errors;
  - `logging` — the text of a technical log line.
- `tests/` — tests of the library.
- `app/` — the unverified shell: SQLite through SeaORM, migrations, the
  operating system's credential store, the log file, and the command bodies.
