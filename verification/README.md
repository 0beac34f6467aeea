# exam_server

The verified core of a small online examination server (users, groups,
roles, papers, questions, graded answer sheets).

- `src/` is the library, checked by Verus: query-string parsing, decimal
  text, passwords and digests, the Redis session record, request
  authorization, the login exchange as a step function, the SQL statements
  that change the database, grading, and the choices the pages make.
- `tests/` exercises the library on concrete values.
- `app/` is the HTTP server around it (axum, sqlx, redis, askama): it reads
  the configuration, talks to MySQL and Redis, renders the pages and feeds
  the library's step functions with what it finds. The HTML templates are
  not part of this repository.
