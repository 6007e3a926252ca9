# arma_persist

The persistence and rules of a multiplayer game backend: players' bank
accounts, lockers, unlocked vehicles and equipment, organizations with their
members, invites and paydays, paid services (medical, rearm, repair,
refuel), notifications, and the events that tie them together.

- `src/` is the library, written in Verus. Every function carries a
  contract that Verus proves: what it returns and how it changes state, in
  terms of mathematical models (`Seq`, `Map`, `int`) of the data.
  `src/laws.rs` states and proves properties that span several operations
  (for instance, that leaving an organization puts the member in the
  default organization, or that a payday pays each member once).
- `tests/` runs the library on concrete values.
- `app/` holds what cannot be verified here: physical garages, fuel and
  repair prices (floats), money in major units and the reading of money
  text (through floats), and serializable copies of the library's types for
  the game's JSON. The library takes amounts already read, as cents.

Calls into other crates (`uuid`, `chrono`, `sha2`) go through a few small
trusted functions whose contracts state what those crates promise.
