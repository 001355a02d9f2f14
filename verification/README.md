# ezpz

Technical-analysis and frame-viewing tools for Polars, exposed to Python.

- `src/` is the library, verified with Verus: the parsers of the indicator
  parameters (`params`), the series lengths the standard indicators accept
  (`standard`), the reshaping of indicator results (`series`), the choice of
  formatting commands by file extension (`formatter`), the layout tree of the
  viewer and its drawing plan (`layout`), the state of the viewer's components
  (`components`) and of the frame viewer (`viewer`), and the database type
  names (`schema`).
- `app/` is the Python extension around it: the indicator classes, which
  compute with `rust_ti` in floating point over Polars frames, the egui
  drawing of the viewers, and the formatter that runs the external tools.
- `tests/` runs the library on concrete values.
