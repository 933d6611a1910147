# job_security

Job control from anywhere: put running programs in the background and bring
them back to the foreground from any terminal.

`src/` is the verified library (Verus):

- `protocol`: the client/server messages and the codec adapter `MapCodec`.
- `cli`: shell wrapping of `jobs run` command lines, shell detection, the
  request each subcommand sends, and the line printed when a job ends.
- `ui`: the job table of `jobs list` (cells, colours, layout).
- `pty`: the pseudo-terminal process record and the step functions that
  drive terminal setup, special-character lookup and echo waiting.
- `util`: `OptionIo`, an optional reader/writer.
- `text`: decimal rendering and word joining.

`app/` holds what cannot be verified: the command-line program, the system
calls of the pseudo-terminal handling, the tokio codecs and the table
drawing. `tests/` exercises the library.
