# ws_app

The core of a small building-management web service (lessors, their users
and their buildings, served over GraphQL from MySQL), verified with Verus.

- `src/` is the verified library: record types (`records`), the schema's
  32-bit identifiers and their conversions (`ids`), decimal text of `i64`
  values (`decimal`), the text of batched lookup queries (`query`), the
  indexing that answers a batch loader (`loader`), the fields and decisions
  of the GraphQL resolvers (`graph`) and the reading of the user id from the
  `Authorization` header (`auth`).
- `app/` is the program around it: the actix-web server and middleware, the
  juniper schema, the dataloader batchers and the sqlx database access.
- `tests/` exercises the library on concrete values.
