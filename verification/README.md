# cache_server

An HTTP file cache. Every request path names a file of a local `cache`
directory: `GET` returns it, `HEAD` tells whether it is there, `PUT` stores
the request body, `DELETE` removes it. Cache entries can be mirrored to an S3
bucket.

- `src/` is the verified library: how request paths map to files
  (`routes::cache`, `routes::cache_local`), the request handlers as step
  functions that say which file operation comes next and what the client is
  answered (`routes::cache`, `routes::router`), the settings and answer
  handling of the S3 mirror (`routes::cache_remote`), the configuration
  (`config`) and the tracing middleware (`middleware`). Laws about the
  handlers (what a `GET` returns after a `PUT`, that a request touches only its
  own file, that every request is answered once) are proved there.
- `app/` is the server around it: actix-web handlers that perform the file
  operations, the S3 client, loading `Config.toml`, and `main`.
