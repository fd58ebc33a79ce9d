# ejkore

A 2D platform fighter for the browser, with peer-to-peer rollback netcode.
The game logic is a Verus library: Verus verifies every function in
`src/`, and the public ones carry contracts that state what they compute.

## Layout

- `src/` — the verified library
  - `fixed.rs` — 16.16 fixed-point numbers, the only numbers the simulation uses
  - `combat.rs` — boxes, knockback, integer sine/cosine, directional influence
  - `state.rs` — characters, attacks, the game state and `advance_frame`
  - `movement.rs`, `hit.rs`, `frame.rs` — the phases of one frame
  - `checksum.rs` — the state checksum peers compare to detect desyncs (the
    state's bytes as its derived `Hash` writes them, through std's `DefaultHasher`)
  - `rollback.rs` — input and snapshot buffers and the rollback manager
  - `net.rs` — the peer messages and the state of the link to the peer
  - `signal.rs` — the signaling server's address from the page's address
  - `input.rs`, `bindings.rs` — keyboard, gamepad and menu input; key bindings and their storage format
  - `menu.rs`, `keys.rs`, `online.rs` — the screens around the fight, key handling, the online session
- `tests/` — tests of the library
- `app/` — the browser client (canvas, events, WebRTC, storage), which
  performs what the library decides

## Main properties proved

- `advance_frame` computes exactly one step of the simulation, keeps every
  value within the bounds that rule out overflow, never adds stocks, and
  freezes once the match is over.
- The rollback manager's state is the initial state played forward with
  the inputs of every frame, also after a late remote input forced a
  rollback, as long as the peer does not contradict an input it already
  confirmed.
- A frame of an online fight is exactly the peer's messages taken in, in
  order (each input bundle as three remote inputs, each checksum compared
  with the local one), then the local input and one rollback step; the
  desync flag is raised exactly when a received checksum disagrees.
- Messages and stored key bindings read back as what was written.
- Shield beats attack: a shielding player struck by an active attack takes
  no damage that frame, and the shield loses a fixed amount or breaks.
- Knockback grows with damage and is larger for lighter characters;
  directional influence shifts the launch angle by at most 15 degrees.
