# Firefly

Beat-synced LED wristbands, driven by Pioneer Pro DJ Link, Ableton Link and
ESP-NOW. The logic is a library verified with Verus; the programs around it are
thin.

There are two ways to run it:

* **Host coordinator**: joins the DJ Link network and a Link session, and writes
  packets to a USB dongle, which forwards them over the air.
* **All-in-one firmware**: an ESP32-C3 that hears the decks over Wi-Fi and
  broadcasts to the wristbands itself, 100 times a second.

## The library (`src/`)

| Module | What it holds |
|---|---|
| `protocol` | the 36-byte packet: building, reading, validity |
| `crc8` | the packet checksum, from both ends of the wire |
| `le` | little-endian fields |
| `dongle` | finding packets in a serial byte stream |
| `wristband` | following the sender's clock, scheduling flashes |
| `beat_state` | the beat clock: phase-locked loop, prediction, timeout |
| `djlink` | the decks' beat and status packets |
| `firmware` | one turn of the firmware's loop, and its pace |
| `coordinator` | the host's state and packets |
| `frame` | flags and bar counting, shared by both |
| `on_air` | mixer channels on air as a bit mask |
| `espnow` | known wristbands, targets, counters |
| `display`, `line` | the status display's rows and the battery reading |
| `serial` | which serial port the dongle is on |
| `wifi` | which access point to join, and how |
| `math` | shared integer arithmetic |

Functions state in `ensures` what they return or change, over spec functions that
stand beside them. Properties that span functions are public proof functions whose
names begin with `law_`: a packet reads back as it was built, one damaged byte is
never forwarded, the deck is the timing authority for exactly two seconds after
each beat, wristbands that read one packet flash together, and more.

Times of arrival are nanoseconds on a monotonic clock, beat times microseconds on
the clock that packets carry, and tempos BPM x 100.

What is believed without proof is marked `external_body`: the checksum of the `crc`
crate, and the fixed-capacity vector and string of `heapless`. Each such item says
what it claims.

## The programs (`app/`)

Serial port, sockets, radio, display, Wi-Fi and Link stay here, and so does what is
computed in floating point: phases and tempos of a Link session, and the tempo as
text.
