# neolaas

The decision logic of a distributed bare-metal host allocator, verified with Verus.

Cluster nodes find each other through etcd, agree on which node owns which machine
with consistent hashing (Maglev, and rendezvous hashing as an alternative), and run one
actor per owned machine that tracks its bookings.

## Layout

- `src/` — the verified library:
  - `sharding/` — the Maglev table (built, balanced, order-independent), rendezvous
    hashing (minimal disruption), and the sharding coordinator.
  - `machines/` — the machine actor's state machine (provision, deprovision, spec
    updates) and the manager that keeps one actor per locally owned machine.
  - `discovery/` — the etcd discovery protocol: registration, convergence on the peer
    set, the watch stream, the controller's phases, the simpler peer registry, and the
    planning of etcd endpoints.
  - `crds/` — the inventory resources (machines, switches, VLANs) and MAC address text.
  - `api.rs`, `health.rs`, `peers.rs`, `config.rs`, `models.rs`, `inventory.rs`,
    `clock.rs`, `text.rs` — responses, health counters, peer lists, configuration,
    allocations and bookings, etcd keys of the inventory, time, and text helpers.
- `tests/` — tests of the library on concrete values.
- `app/` — the server around the library: libp2p swarm, kameo actors, etcd I/O and the
  HTTP API.
