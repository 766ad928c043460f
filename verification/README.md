# starry-drivers

Verified core logic of a RISC-V kernel's serial and network driver stack,
written in Verus. Each function states its behaviour in `requires` /
`ensures` contracts and Verus proves them.

## Layout

- `src/` — the verified library:
  - `time_math` — tick/nanosecond scaling without overflow.
  - `critical_section_policy` — the interrupt-restore policy of nested
    critical sections.
  - `platform` — board descriptors, the early console (LF → CRLF), polled
    UART register decoding and boot-time decimal output.
  - `uart` — interrupt-enable/identification registers, ISR dispatch, ring
    occupancy arithmetic, RX batching and the TX copier state machine.
  - `virtio` — the VirtIO transport handshake, virtqueue lifecycle and the
    raw network device's transactional reset/reinit protocol.
  - `virtio_net_irq_logic`, `virtio_net_irq` — interrupt status
    classification, telemetry and the guest-visible diagnostic snapshots.
  - `net` — the resident network-stack runner's event generation, lifecycle
    and scheduling; socket readiness, connect / receive decisions, datagram
    delivery and the ephemeral-port search; socket epochs and their
    first-wins terminals; the socket registry of handles and epochs.
  - `mm` — user-memory access checks (region checks, the contiguous-range
    binary search, null-terminated scans).
  - `libc_abi` — the `qsort` the kernel provides to linked C code.
  - `benchmark` — console benchmark bookkeeping.
- `tests/` — executable tests of the library.
- `app/` — platform glue: MMIO register access, locking, waking, clocks and
  printing around the library's decisions.
