# kairpods

The decision core of a desktop service for wireless headsets (AirPods, and
Nothing/CMF headsets), written in Verus, with the service around it.

- `src/` is the library. It does no input or output: what happens outside comes
  in as plain values, and what is to be done goes out as plain values.
  - `nothing` holds the wire format of the Nothing/CMF control channel, the state
    of such a headset, the search for its channel, and its recognition.
  - `airpods` holds the values that headsets report, a headset with everything
    that is known about it, and the opening of an AirPods connection.
  - `battery_study` holds the battery history, the rows of the long-term study
    and the decisions behind a time-to-live estimate. Rates are carried as bit
    patterns; the arithmetic on them is in `app/rates.rs`.
  - `bluetooth` holds addresses, the RFCOMM side of a connection, and the manager
    of adapters, headsets and connections. `bluetooth::manager::model` says what
    each command does, and `bluetooth::manager::laws` what holds throughout.
  - `dispatch` decides what is published about an event.
- `tests/` runs the library on concrete values.
- `app/` is the service: sockets, the system's Bluetooth daemon, the bus, the
  database and the clock.

Public proof functions whose names begin with `law_` state what the library
promises beyond single calls.
