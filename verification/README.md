# ob-cli

A terminal viewer for market order books (Polymarket, with Hyperliquid and
Pendle sources), whose core is verified with Verus.

- `src/` — the verified library: the requests to each venue and the books
  built from their replies (`data`), the frame a render draws (`display`),
  the refresh loop's decisions and the token prompt (`session`), and the text
  helpers they share (`text`).
- `app/` — the program: command line, HTTP, JSON decoding, the terminal, and
  the floating-point parts of the drawing (depth rows, spread figure).
- `tests/` — tests of the library.
