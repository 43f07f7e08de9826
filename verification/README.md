# libpd-rs

Rust bindings to libpd, the embeddable Pure Data, with the decision logic
verified by Verus.

- `src/` is the verified library: the error values and their messages
  (`error`), what libpd's status codes and answers mean (`mirror`), and the
  state machine that locates a patch file before it is opened (`patch`),
  with its laws as proof functions.
- `app/` holds the foreign calls into libpd (`libpd-sys`), the hook
  registration through `libffi`, and the file-system and path work. Where a
  call's status code or answer has a meaning, `app/` hands it to `src/`; the
  audio, array, MIDI and `$0` calls return or drop what libpd gives.
- `tests/` exercises the library on concrete values.
