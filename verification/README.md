# edge_worker

The worker of an edge proving deployment: it takes segments, aggregation jobs and
uploads from a manager, proves them on a pool of threads, and reports the results.

- `src/` is the library. It decides: which segments a prover takes and from which
  snapshot, how a job is checked, dispatched, merged and reported, what an upload may
  be called, what is reclaimed and when, how a program is registered, and how fixtures
  are converted. Every public function has a contract that Verus proves. The few
  functions that call outside crates state what they rely on.
- `app/` is the service around it: HTTP, files, threads, the OpenVM provers and the
  command line.
- `tests/` run the library.
