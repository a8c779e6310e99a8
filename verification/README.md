# phosphene

Shows a file as an image and warns when the file changed since it was last
viewed. A metadata cache, keyed by file path, remembers each file's
modification time, size, BLAKE3 digest and the path of its rendered image.

- `src/` is the verified library:
  - `cache`: the cache records, the decisions of a check (metadata hit, or
    new / modified / unchanged by digest), image paths, and the laws that tie
    checks to the records written back;
  - `digest`: BLAKE3 digests of contents and their hexadecimal text;
  - `viewer`: what to do with a checked file (render anew, refresh the record,
    warn) and how a byte is shown;
  - `cli`: the command line and the choice between terminal and window;
  - `config`: settings and their defaults.
- `app/` is the program around it: file and database I/O (redb, memory maps),
  the settings file, terminal output (viuer) and the window (eframe).
- `tests/` runs the library on concrete values.
