# execution_results

Verified logic around the execution results of casper blocks.

- `src/execution_results_acquisition.rs`: the acquisition of one block's
  execution results, whole or as Merkle-proven chunks; the abstract state,
  its invariant, its transitions as spec functions, and the laws over them.
- `src/types.rs`: block hashes, requests for results or one of their chunks,
  and the answers to them.
- `src/utils.rs`: helpers over the results of execution-engine runs (costs,
  errors, the error report, the account an execution wrote).
- `src/wasm_paths.rs`: where compiled Wasm contracts are looked for (the
  AssemblyScript directory first where asked), and the report when none is
  found, and the step that decides what the lookup does next. Paths are
  Unix path bytes, and joining follows `PathBuf::push` on Unix only; the
  crate as a whole (with `app/`, which reads paths through
  `std::os::unix`) targets Unix.
- `src/hashing.rs`, `src/bytesrepr.rs`, `src/engine.rs`: the calls into
  `casper_hashing`, `casper_types` and `casper_execution_engine`, each with
  the contract it is trusted to meet.
- `app/`: the environment and filesystem reads that locate and load Wasm
  files, and adapters taking any collection of results.
- `app/genesis.rs`: the genesis builders (`create_exec_config`,
  `create_genesis_config`, `create_run_genesis_request`). They only hand
  values to the execution engine, so they are not verified. The test-support
  crate's `DEFAULT_*` constants are not part of this crate, so callers pass
  them in. casper-execution-engine 6.0.0 has no `ExecConfigBuilder` and no
  refund or fee handling, so `ExecConfig::new` builds the config.
