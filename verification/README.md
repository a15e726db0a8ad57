# oyasumi_sidecar

The decision logic of the Oyasumi VR sidecars, verified with Verus.

- `src/sidecar.rs`: the core's manager of a sidecar process: launch flags, starts
  and relaunches, start signals, stops, and the watcher's restart schedule.
- `src/mic.rs`: the microphone-mute indicator's state.
- `src/dashboard.rs`: the dashboard's visibility, splash page and overlay events.
- `src/grpc.rs`: the gRPC service's decisions and listening addresses.
- `src/vr.rs`: the overlay runtime's frame loop.
- `src/logname.rs`, `src/texture.rs`, `src/text.rs`: log file names, decoded
  images and decimal formatting.
- `app/`: processes, timers, files, sockets and the floating-point animation
  curves, around the library.
