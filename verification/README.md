# edgar_lib

Standardized financial statements from SEC EDGAR XBRL facts, and the
decisions of a watcher for new filings, as a Verus-verified library.

- `src/` is the verified library:
  - `standardizer/`: the metric catalog (ordered fallback chains of XBRL
    tags per metric, sector additions, computed ratios), deduplication of
    facts, fiscal period alignment, the plan of which facts each metric
    draws on per period, learned tags and how they augment the catalog,
    coverage analysis with keyword candidates, and the prompt and reply
    handling for model-assisted classification.
  - `watcher/`: feed filters, the polling state (which entries are new and
    reported), and the lines printed for events.
  - `models.rs`, `dates.rs`, `text.rs`: the EDGAR records read, dates read
    with chrono, and verified string helpers.
- `app/` holds what stays outside verification: JSON and HTTP, the tokio
  polling task, and the floating-point amounts (values, ratio formulas,
  coverage percentages and statement gaps).
- `tests/` exercise the library on concrete values.
