# stabman

The gameplay rules of a 2D platformer, proved with Verus.

- `src/` is the library: the player's health, jumps, dashes and attacks, bullets and
  their deflection, the knockback of hits, the hearts that show health, the game states'
  transitions, and the start-up settings (welcome message, environment flags, window
  dimensions). Float physics stay outside it; the library decides from signs and flags.
- `tests/` runs the library on concrete values.
- `app/` is the game around it on the Amethyst engine: systems, states and `main`.
