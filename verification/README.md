# finance_cli

A personal-finance bookkeeping library, verified with Verus, and the
`finance` command-line tool around it.

The library (`src/`) holds the logic and its proofs:

- `detect`, `csv_import`, `iif` — recognising a bank export (CSV, QuickBooks
  IIF, QFX) and its institution, and reading it into transactions with a
  SHA-256 dedupe hash; rows that cannot be read become per-line messages.
- `category` — the category model and the default catalogue of 44
  categories: Schedule C with the business income ones, Schedule A,
  Schedule E and personal (unique names, all top-level, schedule lines only
  on deductible categories).
- `sql`, `db` — the statements run against the store, with string literals
  that always read back as written, the reading of stored rows, and the plan
  for seeding the default categories (seeding twice adds nothing).
- `report` — IRS Schedule A, C and E lines: which transactions count toward
  a line, per-line totals and counts, schedule totals, and the year
  comparison.
- `cli` — the commands and the decisions behind them: periods, listings,
  the checks on a delete command, imports with deduplication, the tally of
  a bulk categorization, the categorize menu, rule and category rendering.
- `text`, `money`, `date`, `ids`, `models`, `error` — the values these work on.

Calls into `rust_decimal`, `chrono`, `uuid`, `sha2`, `csv` and std's string
functions stand behind small trusted wrappers whose contracts name or state
what those crates return.

`app/` is the program: clap argument handling, the DuckDB store, coloured
output and prompts. It runs `init` (seeding the default categories),
category listing, creation and rules, Schedule A/C/E reports, the year
comparison, the summary's counts, import, listing and interactive
categorization with rule creation. The profit-and-loss and cash-flow
reports, bulk categorization and deletion answer that they are not part
of this build: their calculator, rule engine and delete statements are not
part of this code. `tests/` exercises the library.
