# pioki

The verified core of the PIOKI social service, where users keep and pass
along posts of limited quota and befriend each other.

- `src/` is the library, verified with Verus: the keep and pass-along
  transactions as state machines (`keeping`, `passing`) with their laws, the
  checks of request bodies (`validation`, `dtos`), access-key and identifier
  handling (`access`), the records, query texts and answers of the users,
  friends and posts endpoints (`users`, `friends`, `posts`, `response`), and
  text helpers (`text`).
- `app/` is the HTTP server: actix-web routing, the Diesel/PostgreSQL
  repositories that run the library's state machines against the database,
  and the JSON encoding of the library's answers.
- `tests/` exercises the library on concrete values.
