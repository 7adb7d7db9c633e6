# wii_disc_info

Reads the metadata of Wii and GameCube disc images (ISO, WBFS, CISO, RVZ, WIA,
TGC, GCZ): container format, game id and region, title, console, disc number
and version.

- `src/` is the library, verified with Verus: format detection
  (`formats.rs`), game ids (`game_id.rs`), regions (`regions.rs`), GCZ block 0
  layout and header extraction (`gcz.rs`, which calls `miniz_oxide` to inflate
  the block), and the header checks behind `Meta` (`lib.rs`).
- `app/` is the command-line program: it reads an image from standard input,
  performs the reads and skips that the library decides on, and prints the
  metadata.
- `tests/` exercises the library on concrete images and headers.
