# blog

A small blogging service: users sign up or log in with a name and password,
publish articles, change and delete them, and read each other's articles.

The crate is split in two:

- `src/` is the verified library. Each HTTP endpoint is a state machine
  (`services::{get, post, put, delete}`): it starts from the request, names the
  database statement to run next, and turns each outcome into the next step or
  the HTTP response. `database` fixes the SQL and parameters of every statement
  and reads records out of result rows; `cookie` reads the `id` and `password`
  cookies. The contracts state every transition exactly, and proof functions
  state the laws that hold across them (writes only after a successful password
  check, the listing drops the first row, every statement fills its
  placeholders, and so on).
- `app/` is the server around it: routing with actix-web, the remote libSQL
  connection, JSON (de)serialization, and the loop that performs each action an
  endpoint asks for and hands back the outcome.

The server reads `URL`, `TOKEN` and `PORT` from the environment (or a `.env`
file) and serves the pages under `./html` and `./static`.
