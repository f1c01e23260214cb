# bitcoin_inq

A verified library, with a thin program around it, for working with Bitcoin
Core and Bitcoin Inquisition: starting a local node, installing an
Inquisition release asset, detecting the chain a local node runs, and
terminating a process.

- `src/` holds the decisions, proved with Verus: which release a requested
  tag names (or, with none, that the releases are listed), which asset fits
  the host, the arguments bitcoind and the helper programs are run with, which
  RPC credentials are used, which paths are checked for a program and in what
  order, how the search for a local node proceeds and when it stops, and what
  chain a node was found to run. What the file system and the network answer
  is not decided there: the library takes those answers as they come.
- `app/` reads the command line and the environment, runs the programs and the
  RPC calls, parses the release list, and hands the results to the library.
- `tests/` runs the library on concrete inputs.
