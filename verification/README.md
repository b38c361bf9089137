# cwitter

A small micro-blogging web service. Users sign up and log in with a name and a
password, receive a login token (an HS256 JSON Web Token, kept in the
`Authorization` cookie), post tweets and read everyone's tweets on a dashboard.

- `src/` is the verified library (Verus):
  - `api.rs`: the forms and tweets, and the decisions of the request handlers
    (sign-up, log-in, posting, which root page to serve, the cookie test page);
  - `api/auth.rs`: issuing and checking login tokens, hashing and checking
    passwords (under a key of their own), through `jsonwebtoken`;
  - `api/db.rs`: the tweets read from the tweets table (every row, or no list
    at all when a row cannot be read);
  - `api/port.rs`: the port taken from the `PORT` environment value.
- `app/` is the Rocket server around it: routes, forms, cookies, Tera templates
  and the SQLite database file `cwitter.db`.
- `tests/` runs the library on concrete values.
