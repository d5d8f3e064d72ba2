# aeris

Control logic of a terminal drone-fleet mission simulator, verified with Verus.

`src/` is the verified library:

- `state`, `task`, `errors`: link states, flight modes, task kinds and errors.
- `drone`: a drone's flight-mode and link state machine, task assignment, and
  the mode changes around each step of flight. Positions, altitudes, speeds,
  charges and configurations are type parameters that the library stores and
  copies but never computes with.
- `mission`: task sequencing of a mission drone, missions and the simulation.
- `validator`, `text`: mission validation.
- `setup`: building a simulation from mission groups and the drone catalog.
- `commands`, `fleet`, `control`: the messages between workers, the
  coordinator's rounds (polling drone reports, recording them, scheduling
  owed ticks), the drone workers' replies to each tick, and the worker
  decisions on interface commands.
- `ui`: drone selection, key handling, the task-queue window and on-screen
  labels.
- `ids`: random drone identifiers.

`app/` is the program around it: configuration loading (TOML), the
floating-point flight physics and progress figures, the worker threads and
channels, and the terminal interface.
