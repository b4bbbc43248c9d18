# Star Trader

A terminal space-trading game: ships travel between star systems, buy and
sell six kinds of goods with multi-round haggling, bank credits at developed
systems, and watch the galaxy grow as frontier systems are discovered.

## Layout

- `src/` — the game's rules as a library verified with Verus: goods and
  star classes, the calendar, markets and development, trading, banking,
  voyages and arrivals, the key bindings, the screens and input bar of the
  program (`session`), the decision of each haggling round (`trade`), the
  star map's route lines (`chart`) and character grid (`starmap`), the text
  of the ships table and the map's details panel (`panels`), and the laws
  that hold across operations (`laws`).
- `app/` — the terminal program around the library: the floating-point price
  model, travel times, the price window of each haggling round, the
  projection of map positions onto the screen, saving and loading games as
  JSON, reading the key binding file, and drawing the screens with ratatui.
- `tests/` — tests of the library on concrete games.

Operations that need floating point, chance, files or the clock take what
those produce as arguments (a repricing function, a planned voyage, the
interest due), or hand the work back to the program as an `Effect`.
