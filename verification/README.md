# tetra-bluestation

The core of a TETRA base station, written in Verus: what the station decides and
computes, with contracts that Verus proves.

- `src/tdma.rs`, `src/bitbuffer.rs`, `src/table.rs`, `src/store.rs`: slots, bits
  and ordered tables.
- `src/aie.rs`, `src/crypto/`: air interface encryption. The block cipher of the
  authentication functions is handed in by the caller.
- `src/bluestation/`: configuration, shared state, the SC2 key and its rollover,
  the subscribers and the direct-mode gateways.
- `src/lmac/`: the lower MAC and its (30,14) block code.
- `src/mle/`: the mobile link entity and the network broadcast.
- `src/mm/`: mobility management.
- `src/cmce/`: call control, short data and supplementary services.
- `src/net_swmi/`: the connection to the central SwMI and the user plane.
- `app/`: the configuration file, the queues between threads and the thread of
  the connection.

An entity keeps its state in a struct and takes a port: the messages that it has
handed on and what it sees of its surroundings. Each procedure is first a function
on a model of both (a "run"); the executable method is proved to do just that.
What holds across procedures is stated by the proof functions whose names begin
with `law_`.

Two facts are taken from elsewhere: `chrono-tz` knows the names of time zones, and
`rustls-pemfile` reads certificates. With the trimming of strings by the standard
library these are the only functions that are believed and not proved.
