# waveshare_watch

The logic of a wrist watch with an AMOLED touch screen, verified with Verus, and a program that
runs it.

- `src/` is the library: it decides and computes, and touches no hardware.
  - `watchface`, `draw`, `region`, `text`, `board`: what the clock page shows, which parts of it
    are out of date, and the drawing steps that bring the screen up to date.
  - `watch`, `swipe`, `power`, `apps`, `modes`: the main loop as methods of `Watch`, from sleeping
    and reading sensors over touch and page drags to dimming, the radio and the applications.
  - `calendar`, `ntp`: dates, and the time from a network time server.
  - `tracks`, `audio`: names of music files, and the order in which the audio hardware is switched.
- `tests/` runs the library on concrete values.
- `app/` is ordinary Rust around the library: the main loop over traits for the board and its
  programs, drawing with `embedded-graphics`, the time server over `embassy-net`, the memory card
  with `embedded-sdmmc`, and a watch for the desk that needs no board.

Every public function states its outcome over spec functions of its arguments. The `law_` functions
state what holds across calls: that a failed rendering is taken up again where it stopped, that the
idle screen only grows darker, that a page turns only where a drag was confirmed, and so on.

Taken on trust are `core::str::from_utf8` and `str::trim`.
