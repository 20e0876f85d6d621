# terrar

A live map of moving things — the ISS, aircraft, ships, Berlin transit, weather
warnings and Autobahn reports — drawn over a light basemap.

The crate is split in two:

- `src/` is the verified library. It holds the data model (`components`), the
  per-source decoding rules that turn what each API reports into actor updates
  (`sources`), the actor registry that merges updates by (id, source)
  (`world`), the palette (`palette`), the map's menu, filter, wheel-zoom and
  tile-address rules (`controls`) and small text helpers (`text`). Measured
  quantities (coordinates, bearings, speeds) are carried through as a type
  parameter; the library never computes with them.
- `app/` is the program: HTTP fetching and JSON decoding, the polling loops,
  the floating-point conversions (unit changes, centroids, number parsing and
  formatting) and the egui/eframe user interface.

`tests/` exercises the library on concrete values.
