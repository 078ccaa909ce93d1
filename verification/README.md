# zsclip

The core of ZsClip, a clipboard history manager for Windows, written in
Verus: every function in `src/` carries a contract that Verus proves.

- `src/` — the library: text normalisation and previews, content
  signatures, clipboard payload checks and the read helper's report,
  history rows and their deduplication, pruning and group order, window
  geometry, edge docking and auto-hide, hiding on clicks elsewhere, the
  `V V` quick-paste popup and its keyboard hook, the keys and clicks of the
  list, its row menu and pinning, the history page query and its paging,
  saving the settings window and where the data lives, LAN sharing envelopes, QR codes, hotkey
  labels and image pixels. Calls into `crc32fast`, `png`, `image`, `base64` and `qrcodegen`
  go through small trusted wrappers whose contracts are stated beside them.
- `tests/` — tests of the library on concrete values.
- `app/` — the program around it: the SQLite store, image files on disk,
  the read helper's JSON files, and the floating-point scaling and easing
  that the library leaves to its caller.
