# noise_cymk

Verified core of a LAN controller for Govee lights (screen-synced CMYK
ambient lighting).

- `src/` — the library, verified with Verus: Govee LAN protocol messages
  and per-SKU capabilities, the request each control command sends, the
  device registry built by discovery, diagnostic reports, screen-zone pixel
  selection and frame conversion, effect decisions (solid color, zone
  mapping, CMYK channel routing, the screen-sync loop's next step), the
  HTTP bearer check and the settings defaults.
- `tests/` — tests of the library on concrete values.
- `app/` — the program around it: UDP sockets, JSON encoding, screen
  capture backends, the floating-point color math (gamma-correct
  averaging, CMYK decomposition, rainbow hues) and the command surface.
