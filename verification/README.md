# makrust

The domain logic of the thaichess.org backend, verified with Verus.

- `src/` is the library. `text` holds white space, trimming and UTF-8
  lengths; `domain::new_user` the sign-up rules for user names, e-mail
  addresses and passwords and the Argon2 hashing and checking of passwords;
  `domain::auth` session validity and `last_seen_at` staleness;
  `domain::email` how Postmark outcomes become `EmailError`s; `auth` the
  authentication of a request by its session cookie; `routes` the decisions
  of the HTTP handlers (sign-up answers, the sign-in state machine, sign-out,
  e-mail statuses, the client address behind proxies); `configuration`,
  `database` and `startup` the settings, the connection retry policy and the
  application handle.
- `app/` is the server around it: axum routing and extractors, SQL, Postmark
  and configuration loading.
- `tests/` runs the library on concrete inputs.
