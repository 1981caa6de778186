# aw-watcher-network

An ActivityWatch watcher that sends heartbeats with network context: the
public IP address, the gateway address, the connection type (`wifi` or
`lan`) and a location resolved from a YAML configuration.

`src/` is the verified library:

- `config` — what location rules read of the YAML configuration;
- `address` — IP addresses and networks as integers, network membership;
- `location` — location rules: building them from a configuration and
  resolving a public address to the first location that matches it;
- `net` — connection types, classification of interface names per platform
  (`net/windows`, `net/macos`, `net/linux`), the public-address lookup over
  the address services, and the context of the default interface;
- `heartbeat` — the bucket id and the data of each heartbeat;
- `text` — character-level text predicates;
- `cli` — the command-line options.

`app/main.rs` is the program around it: option parsing, reading the
configuration file, the HTTP requests, the interface query and the
heartbeat loop.
