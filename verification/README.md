# pal_vm

The verified core of a PAL (Palette) visual-novel engine and its script
decompiler back end, written in Verus.

`src/` holds the logic with its contracts and proofs:

- `extsig`, `extsig_table`, `extsig_records`: the extcall signature table,
  its lookup and the call-site arities.
- `script`, `extcalls`, `trace`, `report_json`, `lua`, `lua_emit`: the
  decompiler's instruction model, the extcall report, runtime-trace
  comparison, JSON and Lua text.
- `assets`, `bytes`, `text`: the `GRAPHIC.DAT` index and byte/text helpers.
- `audio`, `audio_system`: sound handles, groups, volumes, `BGM.CSV` and
  `.MIX` tables, and the channel table.
- `effect`, `msprite`, `font`, `engine`, `diagnostics`: screen effects,
  movie sprites, text state and the bitmap font, the frame clock, and
  diagnostic inputs.

`app/` holds what draws or plays with floating point or drives the audio
backend and the font rasterizer.
