# riko

A small terminal text editor whose editing logic is verified with Verus.

- `src/` is the verified library: rows of text and their tab-expanded rendering
  (`row`), cursor positions (`position`), key decoding from terminal bytes (`key`),
  the editor state machine with its key handling, cursor movement, scrolling and screen
  drawing (`editor`, `screen`, `text`), the raw-mode terminal settings (`terminal`), and
  proved properties that span several operations (`laws`).
- `app/` is the program around it: terminal setup through `termios`, the window size
  through `libc`, reading keys from stdin, reading and writing files, and the main loop.
- `tests/` exercises the library on concrete inputs.
