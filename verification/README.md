# media_recommendation_engine

The logic of a self-hosted media library and watch-together server,
verified with Verus: how media files are classified from their paths,
which collection they are filed under, what to recommend next, how pages
and htmx redirects are built, how login and settings decisions are made,
and how streaming sessions cache segments, throttle notifications and
name their streams.

- `src/` is the verified library. Each public function states what it
  returns in its `ensures`; laws that relate several functions are public
  proof functions next to them.
- `tests/` runs the library on concrete inputs.
- `app/` is a small command-line indexer around the library: it reads
  directories and files, classifies what it finds and prints a
  fingerprint of each file.

Calls into `sha2`, `password-auth` and `syn` stand behind small wrappers
whose contracts say what those crates document.
