# homedrive

A self-hosted home drive: members upload, list, sort and share their files,
group them into albums, and let background tasks index a storage volume and
make video thumbnails.

## Layout

- `src/` is the verified library. Each module states its behaviour in
  `requires`/`ensures` contracts that Verus proves:
  - `schema` – request and answer shapes and their field rules;
  - `auth` – roles, token claims, where a request's token is read from, and
    who may act on which member;
  - `errors` – service and HTTP errors, their categories, statuses and the
    messages clients see;
  - `file` – accepted upload types, dangerous extensions, path and file-name
    safety, HTTP range requests and upload/serve decisions;
  - `content`, `storage`, `store` – content hashing, storage keys and paths,
    the records written to the database and how listings are paged;
  - `member`, `album` – password hashing and checking, the token secret,
    member presence, the first administrator, album ownership;
  - `task`, `thumbnail`, `system`, `web`, `config` – background tasks,
    thumbnail commands, status figures, CORS and front-end answers, and
    settings with their defaults;
  - `text` – the character-level helpers the contracts are stated with.
- `tests/` runs the library on concrete values.
- `app/` is the server around the library: settings loading, the SQLite
  database, the axum routes, and the task worker that walks the disk and
  runs ffmpeg.
