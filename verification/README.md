# via_protocol_keychron

Keychron extensions of the VIA keyboard configuration protocol, verified
with Verus.

- `src/` is the library: it builds the 33-byte HID request reports that
  Keychron keyboards understand and decodes the 32-byte replies, for the
  misc group (debounce, NKRO, report rate, wireless power saving, language,
  DFU information, snap click), the RGB group (indicators, per-key colors,
  mixed effects, LED layout) and the analog matrix group (key
  configurations, one-key-multiple-commands, SOCD, profiles and their
  names).  Each function states in its contract the bytes it builds or
  the value it decodes; multi-request transfers are state machines whose
  next request and whose handling of each reply are specified.
- `tests/` exercises the library on concrete reports.
- `app/` sends the requests over a `via_protocol` HID device, caches what
  the keyboard reports about itself, converts colors to and from `palette`
  and offers serde copies of a few flag types.
