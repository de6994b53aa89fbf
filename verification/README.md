# one_archive

OneArchive keeps large directory trees in bounded tar volumes. A scan records
every root, directory and file of a tree in a SQLite index; an archive run cuts
each file into chunks no larger than a volume, stores every distinct chunk once
(chunks and whole files are recognised by their SHA-256) and links each file to
its chunks in order.

Layout:

- `src/` — the verified library. Status codes and their stored texts, record
  models, path normalisation, volume planning and rollover, deduplication
  decisions, content hashing (SHA-256, also fed block by block), the rows a
  scan or rescan writes, progress records, configuration and workspace
  rules. Each public function carries a contract proved by Verus;
  the laws that tie functions together are public proof functions.
- `tests/` — tests of the library on concrete values.
- `app/` — the application around the library: configuration files, the
  SQLite index, directory walks, file reading and tar writing. The choices
  it makes itself are about the file system: how a stored file's path is
  joined from its root, directory and name, and that a file which no longer
  exists is skipped.
