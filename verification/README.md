# blade_controlhub

The control logic of a tray app for Razer Blade laptops, verified with Verus.

- `src/` is the library: the key vocabulary and the user's key bindings, the
  built-in Fn-layer map, the keyboard hook and HID special-key decisions,
  Command Lab recording, display topology and refresh-rate cycling, the
  screen-brightness and outside-change bookkeeping, the debounced
  configuration writer, the audio-bloom keyboard geometry and frame delivery,
  and the integer colour arithmetic of the ambient effect. Every function
  there carries a contract; Verus proves all of them but two small wrappers
  of std (`String::push`, `String::from_utf16_lossy`), whose contracts are
  trusted.
- `tests/` runs the library on concrete values.
- `app/` is the Windows process around it: the low-level keyboard hook, HID
  reading, Core Audio, GDI display calls, WMI brightness writes, the registry,
  the configuration file, and the floating-point colour engine of the ambient
  effect.
