# ule4jis

Emulates the US keyboard layout on a Japanese (JIS) keyboard under Windows:
a low-level keyboard hook rewrites the keys whose symbols differ between the
two layouts.

- `src/` is the library, verified with Verus: the modifier bookkeeping
  (`key_condition`), the emulations (`emulation`, `decorator`), the
  rewriting table (`strategy`), the per-event decisions of the emulator and
  the records it injects (`key_emulator`, `key_hooker`), the texts
  (`i18n`), the .ico parsing (`icon`) and the tray decisions (`tray`).
- `app/` is the Windows program around it: the hook, input injection, the
  notification-area icon and the message loop.

The tray icons are read at start-up from `assets/app_enabled.ico` and
`assets/app_disabled.ico` beside the executable.
