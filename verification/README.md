# marketplace_api

The verified core of a small marketplace web service (accounts, session
tokens, products), written in Verus.

- `src/` is the library, verified by Verus: bcrypt password storage
  (`password`), HS256 session tokens and their lifetimes (`jwt`, with decimal
  rendering in `decimal`), the authentication guard in front of the API
  (`middleware`), the answers of the endpoints (`reply`, `users`, `products`).
- `app/` is the actix-web server around it: routes, database access with
  diesel, JSON bodies with serde, and token checking.
- `tests/` runs the library against the real bcrypt, jsonwebtoken and chrono.
