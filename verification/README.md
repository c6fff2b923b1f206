# monzo_exporter

A Prometheus exporter for the balance of a Monzo account, written in Verus.

- `src/` is the verified library: the OAuth flow's decisions (authorize and
  callback routes), the requests sent to the Monzo API, the token lifecycle
  (expiry, refresh scheduling, updates from token replies), the metric store
  and the Prometheus text exposition. Every function there has a contract
  that Verus proves; the wall clock (chrono) and `String::push` are the only
  trusted calls.
- `app/` is the program around it: the warp web server, the reqwest HTTP
  calls, the tokio tasks that run the token loop and the balance poll, and
  reading and writing `config.toml` and `tokens.json`.
- `tests/` exercises the library on concrete values.

Configuration is read from `config.toml` in the working directory, with the
keys `account_id`, `client_id`, `client_secret`, `server_addr`,
`redirect_uri` and `auth_key`. Visit `{redirect_uri}/authorize?key={auth_key}`
to log in; metrics are served at `/stats`.
