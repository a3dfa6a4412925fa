# sqlx_pg

A small forum service on PostgreSQL (categories, posts, topics, users,
sessions, a chat channel), split in two:

- `src/` is the library, verified with Verus: the data models, the pieces of
  the queries that are assembled at run time (`query`, `topic::model::list_query`,
  `user::model::exists_query`), session data kept in a Postgres `hstore`, and
  the request logic of the handlers that talk to the database more than once,
  written as state machines (`user::handler::UserFlow`,
  `topic::handler::IncrementViews`) whose laws are proved next to them.
- `app/` is the HTTP server around it (axum, sqlx, tokio): routing, JSON
  shapes, and the database round trips that those state machines ask for.
