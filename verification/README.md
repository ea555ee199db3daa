# rose_offline_client

The game logic of a few resources, systems and windows of a ROSE Online
client, written in Verus with its behaviour stated in contracts and proved.

- `src/resources`: the interface configuration and settings.
- `src/systems`: passive recovery of health and mana, and what the client does
  when an entity dies or levels up.
- `src/ui`: the character information window (stat simulation, stat buttons,
  labels), the skill list debug window (ability types, skill filters, row
  buttons) and the settings window.
- `src/name_pattern.rs`: case-insensitive literal name matching through the
  `regex` crate.
- `src/text.rs`: decimal rendering of numbers.
- `app/`: the ECS systems and egui drawing around the library.
