# mconv

An interactive batch media converter driven by ffmpeg, with its decision logic
verified by Verus.

- `src/` is the verified library: the format tables and encoder arguments
  (`formats`), file naming and size formatting (`converter`), the per-file
  conversion state machine and its safety laws (`pipeline`), parsing of
  ffmpeg's progress and error output (`ffmpeg`), directory scan results
  (`scanner`, ordered by `order`), counters (`progress`), log line text
  (`logger`), folder listing (`picker`), the menu and flow decisions of the
  terminal interface (`ui`), and the question-by-question conversion flow that
  only runs after a final "Yes" (`ui::convert`).
- `app/` is the program around it: terminal I/O, running ffmpeg, walking the
  file system, threads and progress bars. It performs the actions that
  `pipeline::FileJob` and `ui::convert::ConvertFlow` decide, and hands back
  what happened.
- `tests/` runs the library on concrete values.
