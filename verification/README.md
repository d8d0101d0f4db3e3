# mizu

The verified core of `mizu`, a terminal system monitor that shows CPU, RAM,
disk and network activity around a run-length encoded ASCII animation.

- `src/` is the library, checked with Verus:
  - `settings` – settings, their defaults and clamping, reading them from
    and writing them to TOML, and where the settings file lives;
  - `document` – the TOML tables of the `toml` crate, as a model of entries;
  - `state` – the view state and what each key does to it, and rolling
    histories;
  - `theme` – the mizu colour constants, the three palettes and the panel
    styles;
  - `ui` – header, gauge labels, footer and tab layouts;
  - `layout` – the processor-core gauge grid and disk gauge heights;
  - `metrics` – disk space, network counter deltas, counter sums, adapter
    and processor names;
  - `animation` – the frame cursor and run-length decoding;
  - `text` – Unicode whitespace trimming, lines and decimal numbers.
- `app/` is the program around it: the terminal loop (crossterm, ratatui),
  system sampling (sysinfo, tokio), file access, and the floating-point
  parts (CPU averages, rates, colour blending, frame timing and scaling).
  It expects the generated frame table `app/bad_apple_frames.rs`
  (`W`, `H`, `FRAME_COUNT`, `FRAMES`).
- `tests/` runs the library on concrete values.
