# cherry_usage

Imports the usage records of Cherry Studio into a unified usage log, each
request once. `src/` is verified with Verus; it holds every decision and
performs no I/O. A caller performs one `SyncAction` at a time and answers with
a `SyncEvent`.

| module     | content                                                              |
|------------|----------------------------------------------------------------------|
| `location` | where the studio keeps its database                                  |
| `usage`    | which rows of the usage table count, and the records made of them    |
| `amount`   | decimal amounts, computed by `rust_decimal`                          |
| `pricing`  | what a request costs                                                 |
| `protocol` | actions, events and the data that they carry                         |
| `import`   | the transaction that enters, prices and logs records                 |
| `sync`     | the course of a synchronisation                                      |
| `backfill` | ledger entries for rows that were logged before there was a ledger   |
| `world`    | a model of the databases around a run, for statements about runs     |
| `laws`     | what holds of whole runs                                             |

`app/` runs the library over SQLite, with the usage database's own conventions
left to a `Host`. `tests/` runs it on real databases and step by step.

What is trusted is in `amount`: the sums, products, quotients and texts of
`rust_decimal::Decimal`.
