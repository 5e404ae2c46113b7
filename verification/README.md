# mopt_cmplog

A single-threaded, libfuzzer-like fuzzer that can restart itself. It combines the MOpt
mutator with comparison logging, and records for each corpus entry which entry it was
mutated from. A compiler wrapper builds targets for it with context coverage.

The decisions are a library, verified with Verus; the program around it does the I/O and
drives the fuzzing engine.

- `src/lineage.rs`: what a mutator records, and what a new corpus entry carries of it
- `src/clock.rs`: the time that has passed since the start of a run
- `src/cli.rs`, `src/startup.rs`: from the command line to the first thing that is done
- `src/timeout.rs`: how long the target may run
- `src/replay.rs`: executing given inputs once
- `src/session.rs`, `src/tokens.rs`: how a session gets under way, and its dictionary
- `src/compiler.rs`: what the compiler wrapper does with its command line
- `app/`: the fuzzer and the compiler wrapper themselves

What the library takes on trust of `clap`, `libafl` and `libafl_bolts` stands in
`src/cli.rs`, `src/tokens.rs` and `src/clock.rs`, each item with what is claimed of it.
