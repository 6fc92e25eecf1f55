# vesa

A software KVM: the keyboard and mouse of one machine (the server) drive
other machines (clients) over QUIC. The pointer crosses to a client when it
is pushed three times against the configured screen edge, and comes back the
same way or with the configured release key (`release_hotkey`: Escape by
default; ScrollLock, Pause or F1 to F12, with Escape standing in on macOS
for the keys it lacks). Clients trust a server's
certificate on first use and refuse it if it changes later.

- `src/` is the verified library: input events and their wire codes, the
  binary protocol (encoding, decoding, stream framing), edge-push
  decisions, the server and client session state machines, platform key and
  button mappings, the Windows and macOS injection bookkeeping, the
  certificate identity, the trust-on-first-use decision and configuration
  names. Floating-point values are
  carried as their bit patterns.
- `app/` is the program around it: the command line, QUIC networking,
  the platform capture and injection backends, configuration files, and the
  floating-point geometry (edge comparisons, cursor warping).
- `tests/` exercise the library.
