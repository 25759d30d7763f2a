# isomagic

The decision logic of the Isomagic game, verified with Verus, and the Bevy application
around it.

- `src/state.rs`: the game's states, the work scheduled on entering each one, and when
  the in-level camera controls run.
- `src/menu.rs`: the main menu's buttons, each button's response to the pointer, and the
  effect of one frame of button changes on input focus and on the next state.
- `src/projection.rs`: the switch between orthographic and perspective projection.
- `app/`: the Bevy program (plugins, scene setup, UI building, floating-point camera
  control), which asks the library for every decision above.
