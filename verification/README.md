# golfer

The verified core of a handheld receiver for radio surveys. It takes telemetry packets from the
air, keeps track of which ones are missing, follows a position receiver, and logs what it hears to
a card.

- `src/` is the library. Everything in it is verified: the packet format, the parsing of NMEA
  sentences, the numbering of packets, the clocks, the log records, the sequence of steps that
  bring a card up, the name that the device keeps in flash memory, the radio's owner, the buttons,
  the tones and the screen. Where it decides what the hardware does next, a function takes the
  state and what came back, and gives the next request.
- `app/` is the firmware around it for a Raspberry Pi Pico 2: tasks, pins and drivers. It carries
  out the library's requests and hands back what came of them. A constant in it chooses the smaller
  receiver, which only listens to the beacon.
- `tests/` runs the library on concrete values.

Functions named `law_*` state what holds of several functions together.
