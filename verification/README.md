# retro_pet

A tiny virtual pet. The library (`src/`) holds its rules, verified with Verus:

- `pet`: personalities, body shapes, eye styles, palettes and their colours, starting stats,
  decay rates and the thresholds of neglect.
- `birth`: how a new pet's traits are rolled (through `rand`) and which trait each roll picks.
- `mood`: the mood line, the face and the stage of life, from comparisons of the stats.
- `sprite`: the cells of the pixel-art pet, in painting order.
- `session`: messages, their lifetimes, and when the pet is saved.

`app/` is the egui window around it: the clock, drawing, clicks, files, and the stats
themselves, which are floats.
