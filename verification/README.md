# abstreet_panels

Verified decision logic of two map-editing panels.

- `src/text.rs`: string equality and prefix tests over character sequences.
- `src/controls.rs`: the controls of the layers panel, their names, and the
  explanations their buttons open.
- `src/road_types.rs`: which roads light up for each legend entry.
- `src/layers.rs`: the layers panel's state, one step function per event, and
  the laws those steps obey.
- `src/turn_restrictions.rs`: focus handling, restricted destinations and the
  map-object plan of the turn-restrictions mode.
- `app/`: the GUI glue that builds widgets and draws what the library decides;
  it needs the toolkit and map crates of its host application.
