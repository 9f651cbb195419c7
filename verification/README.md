# preaching_partner

The client of Preaching Partner, an app for managing a congregation's
territory maps, streets and addresses. The client keeps a local SQLite
database in step with the congregation's server.

- `src/` is the verified library (Verus):
  - `datatypes.rs`: the messages exchanged with the server and the frontend,
    and the database errors with their texts;
  - `encoding.rs`: hexadecimal text and MessagePack integers, as stored;
  - `queries.rs`: every SQL statement, as text and bound values;
  - `rows.rs`: what the database layer makes of what a statement returned,
    including reading back a stored token;
  - `services.rs`, `commands.rs`, `login.rs`: the login state, the
    decisions of the login flow (which connects to the server at most once)
    and of the frontend commands;
  - `token_store.rs`: the tokens table, and what reading a token gives
    after saving one;
  - `connection.rs`: obtaining an access token before sending, numbering the
    forwarded requests and routing the server's answers;
  - `sync.rs`: the synchronisation run, item by item, and why it ends;
  - `conversation.rs`: a conversation's messages.
- `app/` is the program around it: the database pool, the websocket and HTTP
  traffic, the serde forms of the messages, and a console frontend.
- `tests/` exercises the library on concrete values.

End-to-end encrypted group messaging (MLS identities, key packages and
group state) is not part of this crate.
