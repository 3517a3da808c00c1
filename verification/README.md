# paa5100je_pmw3901

Driver logic for the PixArt PAA5100JE / PMW3901 optical flow sensors, verified with Verus.

Each driver operation (start-up and wake, reading the id, setting the rotation,
reading motion, capturing a frame) is a state machine in `src/`: started, it
issues a bus command; resumed with the bus's reply, it issues the next command or
finishes with a result. The contracts say which command comes next and what the
result is, for every reply.

- `src/protocol.rs`: commands, replies, the SPI write frame.
- `src/startup.rs`, `src/calibration.rs`: the start-up script (reset, calibration,
  id check, default rotation) and the machine that follows it.
- `src/identity.rs`, `src/rotation.rs`, `src/motion.rs`: id, rotation, motion bursts.
- `src/frame.rs`, `src/capture.rs`: assembling and capturing a raw frame.
- `app/lib.rs`: the async `PixArtSensor` that owns the SPI device and runs the machines.
