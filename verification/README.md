# rust_global_offensive

A raycasting shooter in the style of Wolfenstein, played on Counter-Strike
maps: reach both bomb sites and defuse them while enemies guard the way.

- `src/` is the verified library: maps read from text (`maze`, `map`), the
  software framebuffer and the drawing done on it (`framebuffer`, `helpers`),
  colors, textures, menu buttons (`interface`), and the player's weapon and
  bomb-site state (`player`, `helpers`). Every function there carries a
  contract that Verus proves.
- `app/` is the game around it: the raylib window, input, audio, the
  floating-point ray casting and projection, and the main loop.
- `tests/` exercises the library on concrete values.
