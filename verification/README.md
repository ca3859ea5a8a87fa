# er_archipelago

An [Archipelago](https://archipelago.gg) client for Elden Ring, whose logic is verified
with Verus.

- `src/` is the library. It takes plain values (what is in the inventory, what the server
  sent, what an event flag is) and returns what is to be done. Every function is proved
  to do what its contract says.
- `app/` is ordinary Rust around the library: the game's memory, the hook into its item
  grants, the connection and the update loop.
- `tests/` runs the library on concrete values.

## Modules

| Module | What it decides |
| --- | --- |
| `slot_data` | what the server says about the slot: items, counts, virtual locations, marker requirements |
| `item_id`, `inventory` | which numbers are item IDs, which of those are placeholders, what is held |
| `item` | what a placeholder stands for, and what becomes of it when the game grants it |
| `incoming` | which received item is granted next, and when |
| `display` | whose pickup display is suppressed, and when it is restored |
| `region_lock`, `sync` | which regions are open and which map markers are shown |
| `locations` | which locations are checked, what virtual ones grant or show, what the server is told |
| `seed`, `goal` | whether the server, the save and the configuration belong together; whether the player has won |
| `command` | what the player's commands ask for and how they are answered |

Proof functions whose names start with `law_` state what holds of several functions
together.

## What is trusted

Verus takes the contracts of a few wrappers without proof: reading and writing decimal
numbers with the standard library (`text`, where `i64_from_str` names what the parser
returns, its error included), and splitting text at runs of spaces with the
`regex` crate (`command`). Each says in its doc comment what it claims.
