# koshelf

The configuration and library-maintenance logic of KoShelf, a reading
companion built on KOReader metadata, written in Verus with its behaviour
stated in contracts and proved.

## Layout

- `src/` — the verified library.
  - `args.rs`, `grammar.rs`, `cli.rs`: reading the command line against the
    KoShelf grammar (flags, repeatable options, environment fallbacks,
    defaults, conflicts) and converting the matches into commands;
    `cli_laws.rs` proves that the command line wins over the environment and
    that every command line that is read converts.
  - `duration.rs`: durations such as `1h30m`, `45min` or `off`.
  - `file_config.rs`, `merge.rs`: the sections of `koshelf.toml` and how they
    fill whatever the command line and the environment left to its default.
  - `validate.rs`, `proxies.rs`: checking the arguments of `serve` and
    `export` against facts about the file system.
  - `site.rs`: the site configuration, the runtime data policy and what
    starting the pipeline takes.
  - `paths.rs`, `formats.rs`, `rebuild.rs`, `ingest.rs`: the decisions of a
    targeted rebuild, sidecar-to-book derivation, ingest counters and what
    removing an item whose file has gone takes; `rebuild_flow.rs` is the
    rebuild's sequence as a state machine, with its laws.
- `tests/` — tests of the library on concrete values.
- `app/` — the edge: clap's help text, reading `koshelf.toml` with serde and
  toml, gathering file-system facts and the environment.
