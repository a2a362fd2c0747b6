# webtoken

Password hashing (Argon2id, scrypt), PASETO v4 tokens and OPAQUE message
packaging for a Node-API addon, with the library's logic verified by Verus.

- `src/` — the verified library.
  - `argon`, `scrypt`, `phc`: hashing with cost checks, PHC strings, and the
    guarantee that a password checks out against the hash made from it.
  - `paseto`: splitting tokens (`parse_token`), URL-safe base64, reading the
    claims of `v4.public` tokens, creating and verifying `v4.local` and
    `v4.public` tokens, key derivation and key generation.
  - `claims`: how a payload is copied into PASETO claims.
  - `codec`, `text`: hex, UTF-8 and string helpers.
  - `opaque`: hex packaging and error texts of the OPAQUE messages.
- `app/` — the Node-API bindings and the OPAQUE protocol steps (the
  `opaque-ke` cipher suite cannot be declared to the verifier).
- `tests/` — tests of the library on concrete values.
