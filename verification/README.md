# powerflow

The verified core of the Powerflow power monitor for macOS, written in Verus.

- `src/` is the library, checked by Verus:
  - `recorder.rs` — the live chart recorder: one session per device, a ring
    of at most 100 points per chart, every third local tick, de-duplicated
    remote samples, clearing, rebasing after a deleted history row, picking
    the charts to save on close, and snapshots for the history. Its contracts
    are stated over `RecorderModel`, which also keeps every session id handed
    out, so that a new id can be shown to differ from all earlier ones. The
    chart is on and saving on close is off unless a preference says otherwise.
  - `history.rs` — device ids, session ids, chart points and events, and the
    saved form of a chart.
  - `database.rs` — what the outcomes of the Delete All clean-up steps mean.
  - `ioreg.rs` — the `AppleSmartBattery` record and the decisions taken while
    reading it.
  - `provider.rs` — normalised samples and the sparkline histories.
  - `local.rs` — the local sampler as a step function from state and event to
    next state and action (sampling every 2000 ms unless a preference says
    otherwise, never faster than every half second), and the status-bar
    decision.
  - `text.rs` — hexadecimal and decimal rendering, white-space trimming.
  - `laws.rs` — properties that span several operations.
- `tests/` exercises the library.
- `app/` holds what the library leaves to its host: the SQLite store, the
  recorder actor, the sampler task, serde shapes, and the floating-point work
  on readings (sensor readings travel through the library as `f32` bit
  patterns).
