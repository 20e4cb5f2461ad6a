# refresh

A pipe-friendly tool that re-runs a command at a fixed interval, clears the
terminal between runs, prints only the latest output and can log it.

- `src/` is the verified library: the command line (`cli`), the error type
  (`errors`), the log and the command read from standard input (`io`), the
  refresh loop as a state machine (`runner`), the interrupt flag (`signal`)
  and the laws of the loop (`laws`). A command's first word is the program
  and the rest its arguments; a single word that holds shell syntax (such as
  `"df -h | tail -1"`) is a command line, run as `sh -c <word>`.
- `app/` is the program around it: argument parsing, the Ctrl+C handler,
  terminal, processes, sleeping and the log file. It carries out each action
  that `runner::Runner::step` gives and reports back with an event.
