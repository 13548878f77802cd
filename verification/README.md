# gaszaehler

Counts the pulses of a gas meter on a Raspberry Pi and publishes the reading and
the hourly consumption over MQTT. The decisions are a library verified with
[Verus](https://github.com/verus-lang/verus); the program around it waits for
interrupts, talks to the broker and sleeps.

- `src/konfiguration.rs`: pin, broker, topics and times.
- `src/entprellung.rs`: which edges of the contact count as pulses.
- `src/uhr.rs`: how long to sleep until the next hourly report.
- `src/mqtt.rs`: connection events, what they ask for, and publications.
- `src/zaehler.rs`: the meter, for numbers of any type.
- `src/gesetze.rs`: what holds of the meter over whole runs.
- `src/einfach.rs`: a plain meter without restored reading and hourly report.
- `app/`: the program. `app/gleitkomma.rs` supplies the floating point numbers,
  which are outside the proofs.

Whatever the library trusts without proof is the system clock (`uhr::systemzeit`)
and `std::str::from_utf8` (`mqtt`).

| Topic | Content | Kept by the broker |
| --- | --- | --- |
| `haus/gaszaehler/stand` | reading, after every change | yes |
| `haus/gaszaehler/set_stand` | a number received here replaces the reading | |
| `haus/gaszaehler/verbrauch` | consumption of the past hour in cubic metres | no |
| `haus/gaszaehler/verbrauch-kwh` | the same in kilowatt hours | no |
