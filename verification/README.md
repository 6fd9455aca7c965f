# fpsmaster_app

The logic of a block game client, verified with Verus: chat, windows, the running game,
the screens and the views that extensions get.

- `src/chat`: chat components, legacy-coded text and its lines, the state of the chat box.
- `src/container`: the slots of windows and what clicks do to them.
- `src/game`: packets, the player's actions, movement, weather, music, terrain and
  generated worlds.
- `src/gui`: where the parts of the screens are, what they draw, and what clicks and keys
  do.
- `src/ext_bridge.rs`: packets and state as extensions see them.
- `app`: the host around the library. It has the floats: positions, angles, sounds.
- `tests`: the library at work.

The library calls `serde_json` to read chat messages; what it takes on trust of it stands
beside the calls in `src/chat/json.rs`.
Numbers that the host keeps as floats appear in the library as exact integers, as
fractions, or as the bits of the float.
