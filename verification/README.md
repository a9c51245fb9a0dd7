# rmeters

A CPU and RAM monitor that sits on the Windows taskbar: an overlay with
sparklines or per-core bars, two scrolling tray icons, and a small settings
window.

- `src/` is the verified library (Verus): the settings (per-core bars,
  overlay shown, locked to the taskbar, tray icons shown, saved position),
  the settings file format and its read-back, what each settings click does, the fixed-length metric histories, the tray icon columns,
  tooltips and icon bookkeeping, overlay placement and hiding, DPI scaling,
  the settings window layout and commands, and the UTF-16 text that Win32
  takes.
- `app/` is the Windows program around it: Win32 windows, Direct2D drawing,
  GDI icons, the registry, the monitoring thread (sysinfo) and file I/O.
  Everything computed in floating point stays there.
- `tests/` runs the library on concrete values.
