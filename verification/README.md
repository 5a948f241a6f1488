# tokio_browser

The verified core of a browser test bench for a multi-threaded Tokio runtime
with an OPFS-backed file system.

- `src/` (Verus): the Fibonacci workload (`fib.rs`), decimal rendering
  (`decimal.rs`), the paths and contents the tests use (`names.rs`), the checks
  made on what is read back (`checks.rs`), the stress tasks as state machines
  that ask for one file-system operation at a time (`task.rs`), and the plan of
  a run (`plan.rs`). Laws about these are proof functions beside them.
- `app/` (plain Rust): the `wasm_bindgen` entry points, the runtime, and the
  asynchronous driver that performs the operations the tasks ask for.
- `tests/`: tests of the library, including runs of every kind of task against
  an in-memory file system.
