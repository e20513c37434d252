# sp_mvm

A verified model of a Substrate pallet that runs the Move VM: scripts signed
by an account (`execute`), modules published under an account's address
(`publish`) or at the standard library's address by the root origin
(`publish_std`), a balance test, and the end-of-block hook that clears the
VM's caches.

- `src/` is the library, verified by Verus. `dispatch.rs` holds the pallet as
  a state machine: from where it stands and what the runtime reports, one
  step gives where it goes next and what outside work it asks for.
  `pallet.rs` keeps that state, whether the VM was had (once had, it is
  never asked for again), and the recorded events; `laws.rs` proves the
  properties that hold across steps.
- `app/` drives the state machine against a host that does the outside work
  (the Move VM and the currency), and keeps the VM in a lazily filled cell (`Runtime`, `VmCache`).
- `tests/` runs the pallet through each call.
