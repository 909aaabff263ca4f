# recommend_server

The request-handling logic of the play-recommend web server, verified with
Verus.

- `src/` is the verified library:
  - `error`: the errors that requests are rejected with, and the status and
    message that each rejection is answered with (`handle_rejection`).
  - `query`: the parameters of a query string, each key at most once.
  - `detail`: reading the account id of the score-detail handler, with a
    verified reader of decimal `i32` texts.
  - `oauth`: the steps of the Google sign-in exchange that compute: the code,
    the token request, the judgement of Google's answer, the redirect and the
    session cookie.
  - `upload`: storing an uploaded database file, as a state machine whose
    actions (reading the form, creating the directory, writing the file) are
    carried out by the server.
  - `settings`: settings taken from the environment with a default.
- `app/` is the warp server around the library: routes, the database and
  network calls, and the file system.
- `tests/` runs the library on concrete inputs.
