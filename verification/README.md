# pastor

A small pastebin service. Files are uploaded with a bearer token, stored under
a random word-pair name together with their metadata in extended attributes,
served back by name, and swept away once they expire.

- `src/` is the verified library: paste ids and their parsing and rendering,
  path handling, the encoding of metadata in extended attributes (with the
  proof that what is written reads back unchanged), expiry rules, making a
  paste of an upload (with libmagic recognising its content), the cleanup
  decision, delete authorisation, error replies, the reply to a multi-file
  upload, the token set, and the configuration defaults.
- `app/` is the web server around it: HTTP routing, file and attribute I/O,
  loading the libmagic databases, the token-file watcher and the cleanup timer.
  It reads its HTML templates and static assets at start-up from the
  directory named by `PASTOR_ASSETS` (default: the working directory).
- `tests/` exercises the library on concrete values.
