# hydebar

The logic of a Wayland status bar for Hyprland, verified with Verus.

- `src/` is the verified library: configuration defaults and validation,
  notification storage and the notification server's decisions, the state of
  the audio, network, MPRIS, privacy, tray and workspace services, the listening
  loops of the network and privacy services as step functions, the custom
  module listener, the idle inhibitor's registry, brightness file parsing and
  the redraw ticker. Laws that relate several operations are public proof
  functions next to the code they speak of.
- `tests/` runs the library on concrete values.
- `app/` is the program around it: it reads the configuration file, runs the
  shell commands and the custom module listeners, and hands what it reads to
  the library.
