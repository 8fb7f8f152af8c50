# lau-camera

A 2D camera system for games: viewport projection, smooth following, screen
shake, eased transitions and a controller that composes them.

- `src/` is the verified library. `follow.rs` decides what one frame of
  following does (stay idle, hold inside the deadzone, or chase with the
  previous target as velocity reference) and keeps the follower's memory.
  `controller.rs` keeps the controller's optional shake, transition and bounds,
  plans the stages of an update (follow, transition, shake, clamp, in that
  order) and drops finished effects. `noise.rs` holds the integer hash behind the
  screen-shake noise, proved equal to its specification and below 2^53, so the
  noise value `bits / 2^53` lies in [0, 1). `easing.rs` holds the `Easing`
  variants.
- `app/` holds the camera types themselves. They compute in `f64`, which the
  verifier does not handle, and carry the serde derives; `app/` calls the
  library for these decisions and for the noise hash, and serialises the
  library's `Easing` through a copy that carries the serde derives.
- `tests/` exercises the library on known values.
