# idvs

A desktop controller for a Dante virtual soundcard on Linux. It runs the statime PTP daemon
through a privileged helper, configures ALSA and PipeWire, and watches the clock.

- `src/` holds the logic, written and proved in Verus: the configuration texts (`config`,
  `pipewire`), the network interfaces (`network`), the line protocol of the helper (`protocol`)
  and the helper itself (`helper`, `launch`), the clock's status (`ptp`), and what the background
  worker and the window decide (`start`, `stop`, `worker`, `app`). Procedures that touch the
  outside world are state machines: a state says what is to be done next (`procedure`), and what
  came of it moves the state on.
- `tests/` runs the library on concrete values.
- `app/` is the program around it: files, sockets, processes, and the window.
