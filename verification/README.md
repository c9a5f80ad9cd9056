# vdmtool

A tool that talks to the CD321x USB-C port controller of Apple silicon
machines and sends vendor-defined messages through it (reboot the machine on
the other end of the cable, put it into DFU mode, route its serial port, ...).

- `src/` is the verified library:
  - `cd321x`: the controller protocol as a sequencer. Each operation is a list
    of stages (mode checks, commands, waiting for the partner); `Device::step`
    takes the outcome of a bus transfer and returns the next one.
  - `sequencer_laws`: properties that every step keeps.
  - `codec`, `text`: little-endian integers, hexadecimal text, number parsing.
  - `i2c`, `spmi`: how block transfers are framed on each bus.
  - `cli`, `sysfs`: the choices the program makes from its arguments and from
    what sysfs shows.
- `app/` is the program: argument parsing, file and device I/O, the clock,
  and the loop that performs what the sequencer asks for.
- `tests/` runs the library on concrete inputs.
