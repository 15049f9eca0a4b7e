# Ulendo

The backend of Ulendo, a marketplace for rides, stays and guides in Malawi that is
paid in bitcoin over Lightning.

`src/` is the library: what the backend decides. It takes rows, requests and replies
as plain values and gives back rows to write, payments to make, messages to send and
answers. Every function of it carries a contract. Verus proves the contracts of all
functions but the few that call into other crates, whose contracts are taken on trust.
The main parts:

- `auth`: who sent a request (NIP-98).
- `db`: the rows, and what each write does to a row.
- `routes`: one module for each group of endpoints. A request that waits for the
  database or for another service between two decisions is a chain of values: each
  step hands out what to do and takes back what came of it.
- `services`: the Lightning wallet and its monitors, push notifications, the index of
  listings on Nostr relays.
- `laws`: what holds of the escrow and of rides as a whole, such as that of all the
  claims on a booking's money only one succeeds.
- `crypto`, `json`, `clock`, `ids`: the few calls into other crates that the decisions
  need. What is taken on trust about each is written above it.

`app/` is the server around the library: HTTP, WebSockets, SQLite, the wallet's API.
It also does the arithmetic on coordinates, distances and averages, which are
floating-point numbers.

`tests/` runs the library on concrete values.
