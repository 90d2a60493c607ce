# discid

Calculates MusicBrainz and FreeDB disc IDs for audio CDs with libdiscid, and
reads the MCN and the ISRCs of a disc.

- `src/` is the verified library (Verus): the feature set passed to a read
  (`features`), the layout of the offsets handed to `discid_put` (`put`), the
  error type and the outcome of a status (`error`), decimal text (`text`), and the disc with its tracks as libdiscid reports it
  (`disc`). Each function states its result in its contract; the laws of the
  library are the `law_*` proof functions.
- `app/` makes the calls into libdiscid (through `discid-sys`): reading a
  drive, putting a TOC, and the platform queries. It hands what libdiscid
  reports to `DiscId::from_toc`. libdiscid must be installed to build it.
- `tests/` runs the library on concrete values.
