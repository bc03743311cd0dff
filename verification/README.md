# user_auth

A small user-account service (sign up, list, delete, password hashing and
checking) split in two:

- `src/` is the library, verified with Verus: loading the settings
  (`config`), Base64-URL text (`utils`), password hashing with Argon2i or
  HMAC-SHA-512 and checking a password against a stored hash (`crypt`), and
  the decisions of the HTTP handlers (`api`): the new user's record and
  answer, the answer to a deletion, the projection of listed users, the
  mapping of failures to what clients are told.
- `app/` is the program around it: environment, database pool and queries
  (sqlx), routing and responses (axum), JSON, logging.

Calls into the hashing, encoding and randomness crates stand in `src/`
behind small trusted wrappers whose contracts are stated in their doc
comments.
