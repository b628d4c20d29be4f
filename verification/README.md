# dragon_world

A small third-person sandbox (village, forest, lake, tower, a sword, a
crate-and-coin quest). The crate is split in two:

- `src/` — the verified library (Verus): WAV encoding and the footstep noise
  source (`wav`), the music-file selection and transcoding state machines
  (`audio`), the terrain grid topology (`terrain`), the tower layout plan
  (`tower`), keyboard intent (`player`), the pause menu (`menu`), the quest,
  sword pickup and combat rules (`quest`, `sword`, `combat`), and door
  colliders and texture packing (`house`).
- `app/` — the Bevy program: ECS systems, rendering, physics, audio playback
  and every floating-point computation (movement, camera, animation, noise
  terrain), calling the library for the decisions above.

`tests/` exercises the library on concrete values.
