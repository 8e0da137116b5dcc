# auth_service

The decisions of an authentication service, written in Verus: every function
of the library carries a contract, and Verus proves that the code keeps it.

The service registers accounts with a mandatory TOTP second factor, hands out
short-lived access tokens that are bound to a DPoP key, rotates refresh tokens
and revokes a whole family of them when one is used twice, and locks out an
email address after too many failed logins.

## Layout

- `src/` is the library. Each endpoint is a state machine: its actions name the
  store calls to make, its events carry their results, and work that needs no
  store (hashing, checking a code or a proof, signing a token) is done in
  between. `src/store/` says what each store operation reads and writes.
- The modules whose names end in `_laws`, and `src/store/token_families.rs`,
  state what holds of whole requests: that a token is only granted after every
  factor has been shown, that wrong passwords and wrong codes share one budget,
  that a refused login does not tell whether an account exists as long as what
  is kept of its password is a hash, and more.
- `src/store/token_histories.rs` states what holds of the kept refresh tokens
  after any sequence of calls: a family has at most one active token, one user
  and one session, which does not outlast its cap.
- `tests/` runs the library against stores in memory, with real signatures,
  hashes and codes.
- `app/` is the service around the library: HTTP, Firestore, settings.

## Endpoints

| Endpoint | What it does |
| --- | --- |
| `POST /register` | Makes an account that is not yet usable, and hands out its TOTP secret |
| `POST /register/confirm` | Checks a first TOTP code, activates the account and hands out ten recovery codes |
| `POST /login` | Password and second factor, with a DPoP proof, for a pair of tokens |
| `POST /refresh` | Exchanges a refresh token for a new pair, with a proof by the same key |
| `POST /logout` | Revokes the session of a refresh token |
| `GET /me` | The identity behind an access token and a proof by its key |
| `GET /healthz` | Liveness |

## What is trusted

Calls into other crates stand behind functions marked
`#[verifier::external_body]`, each with a comment that says what is claimed of
the call: the clocks, the system's random numbers, SHA-1 and SHA-256, Argon2id,
TOTP codes, JSON objects, signed tokens, URLs and base64, and of the standard
library the lower case of a text and the end of a string that grows.
