# webwallet

A learning wallet for Solana Devnet, written in Verus. The library in `src/`
holds the wallet's models and rules with their contracts proved:

- accounts, addresses, chains and networks, and the per-chain address rules
  (`chain_adapter`);
- wallet sessions (which wallet is selected), wallet models and statuses;
- key derivation from a password (Argon2), wallet encryption
  (ChaCha20-Poly1305 with Base64 storage fields), signing and key generation
  (Ed25519, Base58 addresses);
- the `getBalance` JSON-RPC request and response, on a JSON value type of the
  library's own.

Calls into the cryptography and encoding crates sit behind small functions
whose contracts state what those crates compute. Among the proved properties:
a generated wallet's address is always a valid Solana address, and decrypting
an encrypted wallet with the same key gives the plaintext back.

`app/` is the browser front end (Leptos), browser storage, the RPC fetch, the
random sources (the browser's crypto API, or the system clock off the browser),
and the SOL amount as a floating-point number. `tests/` exercises the library.
