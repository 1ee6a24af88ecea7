# nova

Controller for a Nova LED voxel display: it renders animated content into a
voxel image, drives the Nova modules over raw Ethernet, and serves a small web
client for the settings.

The library under `src/` is verified with Verus:

- `checksum`, `protocol`: the wire format of the sync packets and of the UDP
  data packets (with their IPv4 header checksum).
- `driver`: the decisions of the hardware driver (frame pairing, sync timing,
  status polls and replies, module readiness, module reset).
- `app_state`, `persistence`, `command`, `content`, `text`: the settings, how
  they are loaded, migrated and saved, the command language of the web client,
  and the text parsing and formatting it needs.
- `audio`: the supervision of the audio output.
- `classic`: the same for the first-generation controller.

`app/` is the program around it: the web server, the Ethernet interface, the
simulator window, the floating-point content renderers and the synthesizer.
Started with `--classic`, it runs the first-generation controller instead
(`app/classic/`).
