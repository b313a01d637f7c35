# Air Monitor

Logic of a desktop companion for an AirGradient indoor air-quality monitor,
written in Verus: the functions in `src/` carry contracts that the verifier
proves (the two that only read a clock, `AlertMonitor::now` and `unix_now`,
have nothing to promise about the reading), and the properties the app
relies on are stated and proved as proof functions beside the code they are
about.

## Layout

- `src/` is the verified library.
  - `alerts`: when readings become notifications — two bad readings in a
    row, a twenty-minute cooldown per kind that only a worse reading breaks,
    and an offline alert after three failed fetches.
  - `history`: the bounded ring of recorded samples, oldest first.
  - `sensors`: comfort verdicts and advice, the AQI bands, and the search for
    each reading's candidate keys in a device payload.
  - `theme`: the 57 dropdown entries (the system default, the two Adwaita
    palettes and 54 named themes) and the stylesheet each one produces.
  - `ui`: the main window's page and refresh decisions as a state machine,
    the metric table, chart thinning, the tray icon's pixel layout, and the
    texts and CSS classes of the cards.
  - `storage`, `launch`, `notifications`, `text`: where files go, how the app
    starts, how notifications are delivered, and number and text helpers.
- `tests/` runs the library on concrete values.
- `app/` is the desktop side: files, the environment, the measurement maths
  on floating-point readings, and the GTK, notification and tray glue. It
  calls the library for every decision it can make on plain values.
