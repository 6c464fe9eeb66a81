# LeDron-James

A drone for a simulated packet network, with its decisions verified in
[Verus](https://github.com/verus-lang/verus).

A drone gets packets from its neighbours and commands from a simulation
controller. It forwards acknowledgements, refusals, flood responses and message
fragments along their source route, drops fragments by chance, answers what it
cannot hand on, takes part in floods, and can crash and come back.

- `src/` decides. `drone::Drone` turns a packet or a command into a list of
  `action::Action`s. `model` says over mathematical values what each packet and
  command does; `laws` proves what holds over several calls and of all that a
  drone sends.
- `app/` acts: it owns the channels, draws the lot for a fragment, performs the
  actions and hands back how each send ended.
- `tests/` runs the library on concrete packets.

The packet drop rate is held in `src/` by the bits of its `f32`.
