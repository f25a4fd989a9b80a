# lovelock

The verified core of the Lovelock companion, which turns the gameplay events
that a Deadlock mod writes into the game's console log into commands for a
Lovense toy on the local Standard API.

- `src/` is the library, verified with Verus: the bridge record framing and
  schema checks, line splitting of the log, the listener's tail bookkeeping,
  trigger admission and overlap priority, the resting baseline, effect
  profiles, the save schedule, Steam install selection, version comparison
  and update warnings, and the Lovense command and reply rules.
- `tests/` runs the library on concrete values.
- `app/` is the program around it: reading the log and the state file,
  Steam discovery on disk, HTTP to the Lovense app and to GitHub, JSON
  decoding, threads, and the floating-point effect settings and intensity
  curves.
