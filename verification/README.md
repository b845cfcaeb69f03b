# deckgym

A game engine for the Pokémon Trading Card Game Pocket, written in Verus:
the rules of the game are executable Rust whose behaviour is stated in
`requires`/`ensures` contracts and proved.

## Layout

- `src/state/` — the game state: hands, decks, the board, turn effects,
  drawing, discarding, knockouts and the end of a turn (`mod.rs`); the text
  shown for debugging (`debug_text.rs`); properties that span several
  operations (`laws.rs`).
- `src/game.rs` — a game: applying an action (drawing, promoting, attacking,
  placing a Pokémon, ending the turn), and the properties of doing so.
- `src/move_generation/` — the actions open to a player, including the
  attacks that require named Pokémon on the bench.
- `src/actions/` — actions, attack mechanics, the outcomes of attacks and
  damage resolution; uses of Sweets Relay are counted, with the turn of the
  last use, as the attack deals its damage.
- `src/models/`, `src/database.rs` — cards, the card database and Pokémon in
  play. The database holds 20 cards (16 Pokémon, 4 trainers). The attack
  mechanics implemented are: discarding an energy or all energies of the
  attacker, damage per benched Pokémon, switching the attacker with a
  benched Pokémon, bench damage while a named Pokémon is on the bench, a
  counterattack effect (Shell Trap), and a coin flip that switches in an
  opponent's benched Pokémon. An attack's cost can drop while the Pokémon
  has a Pokémon Tool attached.
- `src/deck.rs`, `src/deck_text.rs` — decks, shuffling and the deck file
  format.
- `src/attack_ids.rs` — attacks implemented by identifier.
- `src/gym_wrapper.rs` — what the learning environment does next
  (`gym_next`), the action an agent's step applies (`gym_pick`), and the
  integer side of the observations for learning
  agents: energy indices, the order of the hand, the action mask.
- `src/text.rs` — finding, splitting and trimming text.
- `src/rng.rs` — the random number generator of the `rand` crate.
- `app/` — the Python bindings (`pyo3`, `numpy`): the Gym environment and its
  floating-point observation encoders.
- `tests/` — tests of the library.

## Deck files

```
Energy: Grass
2 Bulbasaur A1 1
1 Ivysaur A1 2
2 Professor's Research P-A 7
```

Each line is blank, names the energy types of the energy zone, or gives a
number of copies, the card's name, its set and its number.
