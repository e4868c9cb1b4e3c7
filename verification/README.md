# geoping

The verified core of a multi-protocol ping tool that pings a target over
ICMP, TCP or UDP, either from this machine or through relay servers, and
estimates where the target is from the relays' round-trip times.

- `src/` is the library, checked by Verus: reading targets (`target`),
  setting up a session (`session`), the local ping loop (`schedule`),
  statistics (`stats`), the relay protocol and results table (`relay`),
  the relay server's checks (`server`), the geolocation query (`geo`) and
  the printed lines (`render`), with small text helpers (`text`).
- `app/` is the command-line program around it: argument parsing, name
  resolution, the probes themselves, HTTP and server-sent events, and the
  floating-point statistics.
- `tests/` runs the library on concrete values.
