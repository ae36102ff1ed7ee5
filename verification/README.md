# fibre_std

Platform services for an engine runtime, with their decisions verified by Verus:

- `mmap`: read-only file mappings on Windows and Unix, with a plain read elsewhere;
- `android`: files bundled in an Android package, read through the `AAssetManager`;
- `job`: a job system with a work-stealing compute pool and an I/O pool of three priorities.

`src/` holds the library. It makes no system call. An operation says which call it needs next and
takes the reply as a plain value, so every path through it is covered by a contract, and laws over
whole runs say what an operation comes to and when what was opened is closed. On Windows every
handle is closed by the time a file is dropped; assets and their directories are closed at the end
of a read. On Unix the descriptor is closed at the end of an opening, unless the size of the file
could not be read: then it stays open. `app/` makes the calls, and has the threads. `tests/` runs
the library on given replies.
