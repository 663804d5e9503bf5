# beautiful_app

The logic of a painting program's windows, verified with Verus: the dock of
panels, the file browser, the home gallery, documents and the clipboard, the
filter studio, exports, the player of recordings, game controllers, dropped
files and the presence shown in a chat program.

- `src/` is the library. Each module states what its functions do over plain
  mathematical models and proves it; functions named `law_*` state what holds
  of several of them together. Real numbers are whole thousandths, the weights
  of panels millionths; clocks count milliseconds, a recording's time
  microseconds; answers of the disk and the clock are arguments.
- `tests/` runs the library, and the outside crates that it calls.
- `app/` is the program around it: files, threads, devices and painting.
