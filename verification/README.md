# time_block_planner

The verified core of a daily time-blocking planner: user accounts with
Argon2-hashed passwords, week-long login sessions, day plans between a start and
an end time, interruption columns that revise a plan, and time blocks inside the
columns.

Every HTTP request is handled by a *flow* in `src/`: a small state machine that
says which database query to run next (`db::Query`), is resumed with the
database's answer (`db::Reply`), and finally answers the request. The flows, the
password and session rules, the cookies and the error answers carry Verus
contracts and are proved.

Layout:

- `src/clock.rs` – timestamps, times of day and calendar days as plain values;
  reading the clock.
- `src/models.rs` – the records and request/response bodies.
- `src/db.rs` – queries, replies, and the `Step` a flow takes.
- `src/auth.rs` – password hashing and checking, sessions, the signed-in user.
- `src/handlers/` – registration, login, logout, plans, columns and blocks.
- `tests/` – the flows driven with concrete replies.
- `app/` – the server: axum routes, cookies, JSON, and the SQLite statements
  behind each query, with a loop that drives a flow to its answer.
