# miniquad

A small OpenGL renderer that remembers what it has told the driver and leaves out calls that would
change nothing.

- `src/` decides what to call. Functions append `GlCall` values to a list, in the order in which
  they are to be performed; values that only the driver knows (names, locations, logs) come in as
  arguments. Making a shader is a conversation: each step takes the driver's answer and asks the
  next question. Every function states the exact calls that it issues and the exact change of what
  is remembered.
- `src/driver.rs` models the driver's state, and `src/laws/` proves what holds of the renderer as a
  whole: what is remembered stays true, leaving calls out has no effect, and once a pipeline,
  bindings and uniforms are applied the driver draws with exactly those.
- `app/` performs the calls on a real driver.
