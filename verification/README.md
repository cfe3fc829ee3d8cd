# reflective_pipewire

A PipeWire audio control plugin for OpenDeck (Stream Deck on Linux): mute
toggles, volume keys, a volume knob and a volume display whose images follow
the live state of their device.

- `src/` is the verified library: `text` (string helpers and their
  specifications), `render` (SVG composition, colour blending, Base64 data
  URIs, built-in icons), `audio` (the `wpctl` id cache and id resolution,
  reading and writing volumes, `pw-dump` device lists, `pactl` events) and
  `actions` (settings of each button, the image it shows and the audio change
  a press asks for).
- `app/` is the plugin process around it: OpenDeck registration and events,
  running `wpctl`, `pw-dump` and `pactl`, reading the icon files, logging.
- `tests/` runs the library on concrete values.

Volumes are read in millionths of full volume (`0.45` is 450000), with
any sign and more digits than `wpctl` prints; relative changes are
percentages read the same way (`5.5%+` raises by 55000). The volumes the
plugin sets are whole hundredths (45 is `0.45`, 150 the most it sets),
the precision `wpctl set-volume` is given.
