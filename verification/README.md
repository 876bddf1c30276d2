# atx

A scheduler for commands: `atx 30s -- make check` runs a command later without keeping a terminal
open. Jobs are one-shot or recurring, are kept in a local SQLite database, and are owned by a
session supervisor or by a per-user service.

The rules of the program are a library that is verified with [Verus](https://github.com/verus-lang/verus).
The program around it reads the command line and the machine, hands both to the library as plain
values, and prints what comes of it.

## Layout

- `src/domain` holds the rules: durations, calendar times and time zones, identifiers, what a
  command needs to run, the life of a job and of a run, and recurrence.
- `src/application` holds what can be asked of the scheduler: submitting, listing, removing and
  running again, cancelling, reading captured output, recovering after a restart, and keeping a
  service installed.
- `src/infrastructure` holds configuration layers, paths and permissions, process identity and the
  steps of a cancellation, service files, and how jobs and runs are written to and read from rows.
- `src/cli` turns arguments into jobs, decides what a command does, and renders its result.
- `src/outside.rs` is the list of calls into other crates, each with what is relied on.
- `app` is the program: clap, SQLite, JSON and TOML, signals and files.
- `tests` runs the library, with the other crates linked.

## How to read the contracts

Every type has a model (`JobModel`, `RunModel`, `ExecutionModel`, ...), and contracts speak of
models, sequences of characters and mathematical integers. Where a rule refuses something, a
function such as `job_update_fault` or `start_fault` says when and why, and the contract of the code
is an equivalence with it.

What the machine decides comes in through traits (`Database`, `CommandRunner`, `ProcessTable`,
`LogFiles`, ...). They promise nothing about their answers, but for one promise that the store keeps
by proof: a run whose request to cancel was recorded says so. What they require is proved of every
call: only whole jobs and fresh claims are inserted, a revision only grows by one, a recorded move is
legal, a log outside the run directory is never read, and a command is signalled only once its
cancellation was requested. The decision that follows an answer is a function of that answer, with an
exact contract.

A function that asks such a trait says what it asked, in which order, and of which state.
`call_ensures(S::create_job, (at, &job), saved)` in a contract means that the call was made on `at`
with this job and came back with `saved`; `*at == *old(store)` and `*final(at) == *final(store)` say
that it was the only call that changed the store. Where several calls follow each other, each is made
on what the one before left.

The database is held in a `Connection` (`src/infrastructure/sqlite/connection.rs`), which notes every
statement that may change it, with what was handed over, the answer, and the database before and
after. `after.ran(before, statements)` means that exactly these statements were run, one on what the
other left. A transaction (`transaction.rs`) begins before anything else is changed and is settled at
the end; `kept` says what remains of its statements. So `cancel_job`, say, is the relation
`job_cancelled` between the store before, the store after, the prefix and the result, through every
question and statement on the way.

## Properties

The public proof functions state what holds across functions:

- a duration, an identifier, a job row and a run row read back as what was written;
- a resolved calendar time shows the wall clock that was asked for, and a day, or a time that may
  not roll over to tomorrow, lies in the future;
- a transaction keeps all that it wrote or nothing; in particular recovery either makes every change,
  each with the next revision of its job, or none;
- a service that is reported as installed runs, and one that is reported as uninstalled is gone;
- a job or run that is done stays as it is, and only a cancellation that was requested ends a run as
  cancelled;
- recovery starts only jobs that were waiting, forgets none, and moves jobs only as their rules
  allow;
- overrides win over the environment, which wins over the file;
- different commands are never shown alike, and a shown command reads back as its arguments;
- a durable job is stored only after a check that passed, and a dry run stores nothing;
- environment values never reach what is displayed, and captured output stays below its directory.
