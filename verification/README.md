# libreauth (PBKDF2 password hashing, verified with Verus)

- `src/decimal.rs`: reading and writing `usize` values as decimal text, with
  the proof that the canonical form reads back to the same number.
- `src/pass/hash/pbkdf2.rs`: the `Pbkdf2Hash` hasher, its parameters
  (`iter`, `hash`), its salt and key derivation, with the laws that tie
  reading and setting parameters together.
- `src/pass/hash/crypto.rs`: the trusted calls into `pbkdf2`, `hmac`, `sha1`, `sha2`
  and `rand`.
