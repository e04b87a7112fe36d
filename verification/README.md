# Kotori

The rules of Kotori, a manga reader, as a Verus library: which archive entries are a book's
pages and in which order, which files and folders join the library, how book files are routed
to workers and kept open, which window is focused when a reader closes, what each menu holds and
what its items do, what events say and to which window, and what a book's metadata restores.

- `src/` is the verified library. Its functions state in `ensures` what they return or change.
  Where a result comes from an outside crate or from std's paths, the contract says what that
  code's source or documentation shows, and no more: the doc comment above each trusted item
  (marked `#[verifier::external_body]`) says what is claimed of it and what is left open, such
  as which separator a joined path gets on a given platform. The laws that relate several
  functions are the public proof functions named `law_*` and `lemma_*_round_trip`.
- `tests/` runs the library on concrete values.
- `app/` is a small command-line program around the library: it reads and rewrites book
  archives, walks folders, decodes and encodes images, and prints JSON. Everything it decides,
  it asks the library.
