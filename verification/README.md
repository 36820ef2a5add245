# pilotrs

A flight simulator for a quadrotor and a fixed-wing aircraft. The part that decides is a
library whose behaviour is stated in contracts and proved with Verus; the part that
computes in floating point, draws and talks to the machine is ordinary Rust around it.

## The library: `src/`

Numbers are carried as bit patterns of doubles (`number::Real`). The library orders them,
picks among them, limits them and passes them on; it does not add or multiply them. Where
a sum, a product or a distance is needed, the caller hands it in.

| Module | What it holds |
| --- | --- |
| `number`, `text`, `messages`, `telemetry` | numbers and their order, text, states and commands, samples |
| `recording`, `round_trip`, `playback` | the recording file format, that reading undoes writing, playing back |
| `control`, `aiding`, `faults`, `config`, `atmosphere` | limits of the loops, which measurements count, failures, kinds of parts, wind and storms |
| `guidance`, `fw_guidance`, `terrain_avoid` | flying waypoints, flying routes, staying clear of the ground |
| `scheduler`, `schedule_laws`, `engine` | the quadrotor's schedule, its laws, the worker that runs it |
| `fixedwing`, `fw_schedule_laws`, `fwengine` | the same for the fixed-wing aircraft |
| `batch` | many runs, in the order they were asked for |
| `terrain`, `replay`, `minimap`, `input`, `viewer` | the viewer: meshes, what is shown, the route editor, the stick, buttons and switches |

A module's laws stand at its end, as public proof functions.

## The program: `app/`

With no argument it opens the viewer. With one it runs a demonstration: `headless`,
`montecarlo`, `pid_vs_lqr`, `fixedwing_cruise` or `record_replay`.

## The tests: `tests/`

They run the library on concrete values, with the outside crates where geometry or noise
is part of the scenario.
