# sdv_twin

A digital twin of a small car, verified with Verus: an operational state machine over assembly
zones, the brain that orders their turns, and the CAN codecs that feed and obey it.

- `src/fsm` — modes of operation, the transition table and the pure step.
- `src/vehicle_state`, `src/vehicle_physics` — the assemblies of the car and their calibration.
- `src/twin_runtime` — zone demux, turns run to quiescence, the reorder buffer, and under
  `controller` the brain. `brain_model` says what each message makes of the brain;
  `virtual_car_actor` is the executable brain, proved to do exactly that; `brain_laws`,
  `brain_order` and `brain_journeys` hold what follows over all messages.
- `src/digital_twin` — the twin itself, its snapshots and the catalog of state laws.
- `src/vehicle_device_bus`, `src/can_frame`, `src/signals` — what goes over the bus.
- `src/gateway` — routing of frames and launch flags.
- `src/engine` — the operating strategy of a car whose assemblies need no preparation.
- `app` — the processes around the library: gateway, emulator and front-headlamp actuator on
  SocketCAN. The first argument picks one: `emulator`, `front-headlamp-actuator`, or the gateway.

The brain is handed one message at a time, with a reading of the monotonic clock, and answers with
what it asks of the world: zones to tell, timers to start or stop, ledger rows, diagnostics and
actuator commands. `app` carries these out with actors and sockets.

A few functions call other crates, the system clock or the formatting of std; each call stands
behind a small wrapper whose comment says what is taken on trust.
