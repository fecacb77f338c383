# orbit

The decision logic of a Wayland panel for Wi-Fi, Ethernet, Bluetooth, VPN and
audio, written in Verus and proved against its contracts.

- `src/` is the verified library: scan merging and search, saved and wired
  profiles, the join and VPN requests, the panel's event state machine, the
  click and power-switch steps, dialogs and key handling, theme colours and
  the generated style sheet, DNS and public-address summaries, QR import of
  VPN configurations, and the small text formats (Waybar JSON, listings).
- `tests/` runs the library on concrete values.
- `app/` is the program around it: the command line, the daemon socket, the
  NetworkManager D-Bus client, system commands and a text front end that
  feeds the state machine and carries out its actions.
