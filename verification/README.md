# singularity_win_compositor

Embeds an ordinary Windows program in an applet: the program is launched as a
normal process, its top-level window is found on the desktop, captured into a
shared image frame after frame, and sent key presses as posted window messages.

- `src/` is the verified library. It decides everything from plain values:
  which window is the program's (`search`), what an executable is called
  (`names`), which messages forward a key (`input`), how a frame is taken and
  what is cleaned up afterwards (`capture`), and in which order all of that
  happens (`compositor`). Its public proof functions state what holds of every
  run.
- `app/` carries out what the library asks for: it calls the desktop, runs the
  thread, and implements the applet's traits. The parts that need Windows are
  built on Windows only.
- `tests/` runs the library on concrete values.
