# poseidonos_rtype

The storage logic of a PoseidonOS-style storage system, as a verified Rust library (Verus),
with a thin program around it.

- `src/` — the library. Every function there is checked by Verus against its `requires` /
  `ensures`:
  - `mbr/` — the master boot record: its byte layout (and the proof that reading back a
    written record gives the record), the array boot records, the device and array-name maps,
    and the managers that create, load and save them.
  - `mapper/` — the in-memory block maps: pages allocated on demand, their header, the stripe
    map and the per-volume block map (with the proof that a read gives back what the last write
    to that entry wrote), and the manager of the volumes' maps.
  - `util/` — block alignment of byte ranges, and a bitmap that hands out clear bits.
  - `io/`, `bio/`, `io_scheduler/` — turning block-device requests into volume I/Os, and
    planning a write (cutting write-buffer ranges at chunk boundaries, reading partial blocks).
  - `master_context/`, `journal_manager/`, `network/`, ... — configuration and the components
    that read it.
- `app/` — the program: reading the configuration file, device files, threads, the event
  queues and the entry points the block device layer calls.
- `tests/` — tests of the library.
