# Embedded MongoDB

The client layer of an embedded MongoDB engine: one process, one local directory, and MongoDB's own
queries, aggregations and commands without a server to deploy.

`src/` is the library. It holds everything a client decides, written in Verus and proved against the
contracts its functions carry:

- `document`: the `bson` crate's documents, as the rest of the library reads and builds them;
- `command`, `error`: what goes to the engine, and whether its reply is an answer or a refusal;
- `collection`, `find`, `aggregate`, `insert`: queries, cursors, aggregations and insertions;
- `options`, `limits`: what an open can be told, and the free-disk floors it establishes;
- `pool`, `workers`: who may use a session or a worker when, and when there should be more or fewer;
- `repair`: the one-time pass over directories that an older build wrote.

`app/` is the thin layer around it that opens, sends, waits, locks, spawns and logs. The native
engine is reached through the traits in `app/native.rs`.

## What is promised

- A missing `_id` is filled in with an `ObjectId`, and the id that is answered is the one inserted.
- A cursor hands out every document of every batch, once and in order.
- A free-disk floor moves as a whole or not at all, and says so where the engine leaves it half moved.
  Every open is on the floor it named, or on the engine's own where it named none.
- A command that has ended is never interrupted, so an interrupt cannot reach whoever uses its session
  next.
- Closing idle sessions or workers never takes a pool below its floor.
- A close waits for exactly the workers there are, and is answered once.
- A directory counts as repaired only once every collection in it has been listed and visited.

## Repairing a directory an older build damaged

Builds before the `DatabaseHolder::openDb` fix left collections of a reopened directory with indexes
that were not maintained. The first open of such a directory validates every collection in it and
repairs the ones that are damaged. Documents that have to give way to keep a key unique are moved to
`local.lost_and_found.<uuid>`, and everything that moved is logged.

A directory that has been through a complete pass holds a file `.embedded-mongodb-index-repair`, and is
not checked again; delete the file to have the next open check again. A directory that this build
created is marked at once. Set `EMBEDDED_MONGODB_SKIP_INDEX_REPAIR` to `1`, `true`, `yes` or `on` to
leave the pass out.
