# openfire

A small space-flight game built on Bevy, with its decision logic verified by
Verus.

- `src/` is the verified library:
  - `game_state`: the screens (main menu, game, pause), what each frame's
    input asks for, and what each screen change must do; the session stays
    consistent, the world is spawned at most once, and pausing then resuming
    gives back the same session.
  - `movement_controller`: which thrust stat each held key pair applies, how
    coasting brakes against the motion, and whether the mouse turns the ship
    or orbits the camera.
  - `ship`: the topology of the ship's six-faced prism, with its faces wound
    outward and every vertex on its own face.
  - `ship_config_store`: the store of the default ship configuration.
- `app/` is the Bevy program around it: input gathering, rendering, and the
  floating-point parts (flight physics, camera smoothing, ray casts).
- `tests/` runs the library on concrete inputs.
