# macmon-graph

btop-style colored graphs for terminal monitors, with the logic verified in
Verus.

- `src/` — the verified library: color gradients and palettes (`gradient`),
  symbol tables (`symbols`), the sample history (`ring_buffer`), the
  rendering core from quantized samples to colored cells (`render`), cell
  placement in the terminal area (`widget`), and the monitor's settings and
  their key-driven updates (`config`).
- `app/` — ordinary Rust around it: the ratatui widget (float normalization
  and quantization, writing cells into the buffer), float statistics over a
  sample history, the settings file with serde, and a demo `main`.
- `tests/` — tests of the library.
