# klirr

The input side of an invoicing tool, verified with Verus.

- `src/` is the library: calendar arithmetic (half-months, day counts since
  1970), the text form of invoicing periods (`2025-11`,
  `2025-11-first-half`) with its round-trip law, the choice of the period to
  invoice (current, last or named), and the validation of the `invoice`
  command's input.
- `app/` is the command line: clap reads the arguments, the program looks
  at the file system and the stored email settings, and hands plain values
  to the library.
- `tests/` runs the library on concrete values.
