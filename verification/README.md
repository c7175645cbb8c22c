# estufa

A greenhouse control system: a manager process, sensors, actuators and a
client that talk over TCP with a small binary protocol.

## Layout

- `src/` — the verified library (Verus).
  - `protocol.rs` — the wire protocol: message types, the 8-byte header, the
    six payloads, `Message` with `encode`, `decode`, `new`, `ack` and
    `try_decode`, and the protocol's laws (round trips, back-to-back messages,
    truncated buffers, foreign magic numbers, decode/encode agreement).
  - `protocolo.rs` — the same protocol with Portuguese field names and `u32`
    ids.
  - `components/` — the device registry (`devices`), lock-file naming
    (`env_io`), the sensor and the client, and the manager's decisions that do
    not depend on reading values (`manager`: gate, registration, configuration
    keys, actuator commands, query answers).
  - `componentes/` — the components with Portuguese names and their manager's
    decisions.
- `app/` — the program: command line, processes, threads, sockets, the
  environment files, and the floating-point control (hysteresis of the
  temperature, humidity and CO2 loops, decay of the environment).
- `tests/` — tests of the library.
