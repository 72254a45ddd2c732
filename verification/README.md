# DevPet

DevPet is a deterministic virtual pet: Byte eats, rests, codes and plays,
and its stats drift minute by minute. This crate is the game's verified core.

- `src/pet.rs`: pet stats, care actions, coding projects, the Bug Squash
  reward and the minute clock, each stated exactly by a spec function, with
  proofs that stats stay in range, the level follows experience and time
  composes.
- `src/storage.rs`: the save-game rules (schema check, capped offline
  catch-up).
- `src/theme.rs`: display themes, their lenient name parser and colour tables.
- `src/sprites.rs`: the ten 32 x 32 indexed Byte sprites, drawn with verified
  canvas primitives, with the catalog's guarantees (palette, padding, unique
  ids, names and bitmaps).
- `src/sheet.rs`: the SVG contact sheet of the catalog.
- `src/ui.rs`: the menu state machine of the handheld UI.
- `src/wrap.rs`: greedy word wrapping for the small screen.
- `app/`: the macroquad desktop host (window, input, drawing, files). Run it
  with `sprite-sheet [PATH]` to write the contact sheet instead.
