# rustream

Python bindings of a multi-modal stream fusion engine, with their logic verified by Verus.

- `src/` is the verified library: RGB8 frames (`frame`), detection signals (`signals`), the
  records exchanged with the fusion engine and their conversions (`engine`), violations and
  events (`events`), the replay of recorded JSONL sessions (`replay`), the pipeline's
  lifecycle (`pipeline`), the errors raised (`errors`) and text helpers (`text`).
  Floats travel through the library as their IEEE-754 bit patterns.
- `app/` is the pyo3 module: the Python classes, file reading, the calls into the fusion
  engine and capture pipeline of `vigilo_core`, and float arithmetic and formatting.
- `tests/` runs the library on concrete values.
