# alkahest

Verified core of the Alkahest tag browser and renderer, written in Verus.

- `src/` is the library. Every function carries a `requires`/`ensures`
  contract that Verus proves; the laws of the library (a traversal expands
  each tag once and stays within its depth limit, grouping of raw strings is
  exact, ordered parallel submission partitions the objects in order,
  applying a render state twice is silent, a tag is loaded once, ...) are
  public proof functions next to the code they are about.
- `tests/` runs the library on concrete values.
- `app/` is a small command-line front end and the parts that need floating
  point numbers or outside types: resolution scaling, profiler reports,
  debug text vertices and the text form of a traversal.
