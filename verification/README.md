# recisdb

The logic of a recorder for ISDB tuners, verified with Verus.

- `src/io.rs`: a transfer of a transport stream from an input to an output, optionally
  through a descrambler, as a state machine: the owner of the streams performs the action the
  machine asks for and reports how it went. `src/io/laws.rs` holds what every run keeps.
- `src/recording.rs`: a recording from a tuned device, its stop handle and its report.
- `src/tuner.rs`: the LNB supply voltage and the interface of tunable devices.
- `src/keys.rs`, `src/numbers.rs`: reading working keys and numbers given as text.
- `src/commands.rs`: the decisions of the command-line tool (input, output, buffer size,
  descrambler settings).
- `app/`: the futures that drive the state machines over real streams, and the command line.
  Tuner devices and the descrambler are platform code, reached through `app/backend.rs`.
