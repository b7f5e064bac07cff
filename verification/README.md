# ponte

Bridges LangChain OpenWiki into a fleet of repositories: the target
repository's context is assembled, the unmodified `openwiki` binary is run
against it (`--init` or `--update`, chosen by whether `openwiki/` exists),
and the repository's agent notes file gets a pointer to the generated docs.

- `src/` is the verified library (Verus): repository slugs and the paths of
  the state and audit files (`state`), the decisions of the OpenWiki job
  (`openwiki`), the pointer routing (`route`), and the driver's terminal and
  deadletter checks (`pipeline`).
- `app/` is the unverified I/O around it: the scheduler jobs that spawn the
  process and read and write files, the persisted run state (serde, chrono),
  and the CLI driver (tracing setup, argument parsing, DAG wiring and the
  scheduler loop). The context-assembly job is not part of this tree, so the
  driver takes it from its caller and `app/` has no `main` of its own.
- `tests/` runs the library on concrete values.
