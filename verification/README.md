# tesutil

Reading and writing the plugin and save files of The Elder Scrolls III: Morrowind, with the
parts of The Elder Scrolls IV: Oblivion's formats that a character conversion needs, and a
command-line converter built on them.

## Layout

- `src/` is the library, verified with Verus. Each binary format (fields, records, plugins,
  change records, groups, padded and length-prefixed strings) is decoded and encoded by
  functions on bytes whose contracts are stated over spec models (`bytes`, `plugin`, and the
  `View` of each type). Round-trip laws (what a read gives back of a write) are public proof
  functions beside the code they speak of, for example `tes3::roundtrip`,
  `tes3::actor_roundtrip` and `save::actorref`.
- `src/tes3/` holds the Morrowind forms (NPCs, creatures, classes, spells, items, references,
  the player's saved state) and the world that looks records up across plugins in load order.
- `src/tes4.rs` and `src/tes4/` hold Oblivion's actor values, skills, form IDs, spell effects
  and group kinds.
- `src/convert.rs` holds the conversion options and the correspondence between the two games'
  skills.
- `app/` is the `tesconvert` program: the command line, file access and the game settings that
  are floating-point numbers.
- `tests/` exercises the library on concrete bytes and values.

Values that the games store as `f32` are carried by the library as their bit patterns (`u32`)
and only interpreted as floats in `app/` and `tests/`.
