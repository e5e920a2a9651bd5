# gd_backend

The logic of a project-management web service (accounts and organisations,
projects and their members, work items, wiki spaces and articles), written in
Verus and verified.

- `src/` is the library. Each handler's database work is a small state
  machine: a start function builds the first SQL statement, a step function
  takes the reply to the last statement and gives the next statement or the
  result. Contracts state the exact SQL text, the bound values and the result
  for every reply.
- `src/text.rs` and `src/uuid_text.rs` hold the formatting the statements
  need (zero-padded decimals, lower-case hex, UUID text) with their specs and
  round-trip lemmas.
- `app/` is the Rocket server: it reads forms, runs the statements with sqlx,
  signs tokens with jsonwebtoken and serialises the answers.
- `tests/` runs the library on concrete values.
