# sparko-esp-std

The ESP32 implementation of the Sparko embedded platform, split in two:

- `src/` is the verified library. It holds the decisions and encodings of the
  firmware, each with a contract proved by Verus: the captive-portal DNS answer,
  the form decoding of the configuration pages, how configuration values are
  stored in and loaded from NVS, the mDNS responder, the DynDNS2 resolver, the
  Wi-Fi connection and access-point settings, the status LEDs, the display
  command stream and the start-up of the platform. Public proof functions named
  `law_*` state the properties that hold across calls.
- `app/` is the board glue: ESP-IDF drivers, sockets, threads and the platform
  interfaces of `sparko_embedded_std`. It reads and writes, and leaves every
  decision to the library.
- `tests/` runs the library on concrete values, with the real outside crates.
