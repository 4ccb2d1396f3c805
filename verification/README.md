# grafica_ide

The verified core of grafica-ide, a DSL-driven graphics IDE built on egui.

- `src/` is the library, verified with Verus. It covers the tab identities,
  the 300 ms debounce that decides when the canvas DSL is re-parsed, the
  recent-files list, the settings change log, the ribbon's modals and clock,
  and the startup banner text.
- `app/` is the egui application around it: widgets, the dock layout, file
  dialogs, reading the clock and the system, and the floating-point UI scale.
- `tests/` exercises the library on concrete values.
