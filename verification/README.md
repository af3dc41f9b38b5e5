# kioskwm

A Wayland compositor for kiosk machines: one app fills the screen, Alt+Tab switches
between apps, Super+right click opens a small window menu, and Ctrl+Alt+Del opens a
settings panel (pointer speed, quit, shut down, restart). It runs on a VT (DRM + libseat)
or nested in a desktop session (winit), and hosts X11 apps through XWayland.

## Layout

- `src/` — the verified library (Verus): app lists and focus rules, the Alt+Tab and menu
  state machines, the settings panel, emergency key combos, the evdev/scancode fallback
  matcher, layout and hit testing, the pixel rasterizer used for the WM's own pictures,
  the start-up command resolution and the text of the shell scripts it writes, and the
  choice of pointer image from an XCursor file.
- `app/` — the program around it: Wayland/DRM/XWayland plumbing (smithay), input devices,
  files, processes, threads, and the floating-point parts (pointer motion, the speed
  slider, glyph and icon rasterization).
- `tests/` — tests of the library on concrete values.
