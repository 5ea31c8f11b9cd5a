# peregrine_falcon_miramar

Exports a Firebird table to a Parquet file. The crate is split in two:

- `src/` — the verified library: the Firebird-to-Arrow type mapping
  (`column_type`), adaptive batch sizing (`batch`), the lock-free connection pool
  over a crossbeam `ArrayQueue` (`pool`), key-range partitions,
  chunk and page cursors (`partition`), SQL text (`sql`), table metadata
  (`metadata`), the catalogue-query protocol that loads it (`loader`),
  row-to-column conversion (`columns`), extraction decisions and writer
  settings (`plan`), and decimal / thousands formatting (`text`).
- `app/` — the program: command line, database connections and queries,
  threads and channels, Arrow arrays, the Parquet writer, timing, and the
  floating-point arithmetic (partition offsets, float conversions).

`tests/` exercises the library on concrete values.
