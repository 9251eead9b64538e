# jihaz

Support and utilities, verified with Verus:

- `range`: ranges of items within a larger list, the set operations on them, and the
  changes that add, remove and shift items, with the ranges of items that remain intact
  across a series of changes.
- `bits`, `combine_bits`: the largest values of bit counts, the bits a value needs, and
  values stashed side by side in the bits of one integer.
- `time`: compact dates and times, their calendar (through the `time` crate) and their text.
- `collection`: a small fixed-size array of values found by key.
- `convert`: conversions of the values inside shared pointers, vectors and maps.
- `scraper`: picking the elements of an HTML document that match a CSS selector (through the
  `scraper` crate) by class, attribute or a test of the caller's.
- `composer`, `deferred`, `packaging`, `sys_task`, `data_format`: the registers of a text
  editor, the messages of background tasks, the entries of a macOS Info.plist, the state of
  the app packaging tool and the names in an app package, and the lifecycle of the system
  task handle.
- `string`, `directory_walk`: the first letter of a text in upper case, and the choices of a
  walk through a directory tree that collects the files of one extension.

`src/` is the verified library; `app/` holds the input and output around it (the clock,
files, serialized data, icon rendering and package generation); `tests/` runs the library on
concrete values.
