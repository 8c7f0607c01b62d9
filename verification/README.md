# speedcli

The core of a terminal network speed test, verified with Verus.

- `src/engine/`: DSCP specifiers and weighted distributions, the marking of sockets, and the
  IPv4 / IPv6 comparison as a sequence of steps.
- `src/tui/`: the state of the terminal interface and what every key press, engine event and
  finished request does to it. A key press returns what is left to do outside.
- `src/text.rs`, `src/binary64.rs`: strings as sequences of characters, and ratios and
  percentages exactly as double-precision arithmetic yields them.
- `app/`: the terminal, the network, the disk and the clock around the library. What is not
  part of this project (storage, measurements, single screens) comes in through traits.
- `tests/`: tests of the library's public functions.

Real numbers are carried through the library as bit patterns of doubles; arithmetic on them
is done in `app/`, except for the percentages and ratios of counts.
