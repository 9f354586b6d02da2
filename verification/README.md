# meetily

The verified core of a bilingual (English/Arabic) meeting assistant.

- `src/` is the library, verified with Verus:
  - `text`: string primitives over `Seq<char>` (equality, suffixes,
    left-to-right replacement, the order of Rust strings, decimal notation);
  - `notifications`: the notification model, its builder and the localized
    notifications;
  - `preferences`: the preferences row, patches and their merge, the policy
    that keeps the Parakeet provider away from the Arabic UI, the plan of a
    write, and the cache that only takes committed writes;
  - `summary::prompts` and `summary::templates`: the built-in prompts and
    templates and their locale-aware resolution.
- `app/` is ordinary Rust around it: the SQLite reads and writes, the
  process-wide cache, the template files on disk, and serde forms of the
  library's types.
- `tests/` runs the library on concrete values.
