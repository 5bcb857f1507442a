# cb_backend

The verified core of a backend for Solana confidential balances
(token-2022 confidential transfers): it reads the base64/base58 fields of
requests, decrypts available balances, builds deposit and split-proof
transfer transactions for a wallet to sign, and audits transfers with an
auditor's ElGamal key.

- `src/` is the library, written in Verus. Every decision (which error a
  request gets, which instructions go into which transaction, where the
  auditor ciphertexts sit in a transfer) is verified against its contract.
  Calls into the Solana SDK, the token-2022 program crates, `base64`, `bs58`
  and `bincode` sit behind small trusted wrappers whose contracts state what
  those crates' sources show.
- `tests/` runs the library against the real crates, including a transfer
  whose fourth transaction is audited back to its amount.
- `app/` holds the axum handlers: JSON in and out, nothing else.
