# EthProofs client

Connects to an Ethereum node, generates the block inputs, proves each block with
ZisK and, optionally, submits the proofs to EthProofs. Around it stand two
servers that hand out block inputs, and a client that proves one block at a time.

`src/` is the library: every decision of these programs as a function on plain
values, with its contract proved by Verus. A function that calls for effects
returns them as a list of actions.

| Module | What it decides |
|--------|-----------------|
| `cliargs` | which arguments go together, which alerts are enabled |
| `state` | what is set up, the deadline of a run, rows of the CSV file |
| `input` | which blocks of a node or files of a folder are taken, and in which order |
| `process` | whether a block is proved, queued or dropped; alerts on skipped blocks |
| `prove` | how a proof is requested, which block is next, what becomes of the result |
| `webhook` | results that the coordinator delivers over HTTP |
| `metrics` | what a block changes in gauges, counters and histograms |
| `db` | when a failed insertion is tried again |
| `telegram` | alerts and the request that sends them |
| `codec` | bytes and texts of proofs |
| `protocol`, `input_server`, `ig_server`, `inputgen` | inputs and messages of the input servers, and what their clients are sent |
| `single` | the stages of a block that is proved on its own |
| `laws` | what holds of a whole run |
| `text` | numbers, words and hexadecimal digits |

`app/` performs the actions: it parses the command line, talks to the node, the
prover, the database and the HTTP services, and runs the servers.

`tests/` runs the library on concrete values.

Trusted are the contracts of the calls into base64, bytemuck, chrono, regex, url
and zstd, and of two functions of std. Each stands on a small function or a
specification of its own, and its doc comment says what it claims.
