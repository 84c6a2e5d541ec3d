# fitsio

A FITS file, as the cfitsio C library holds it open, modelled and verified
with Verus.

- `src/model.rs` holds the state cfitsio keeps for an open file as plain
  values (the HDUs with their image axes, table columns and rows, EXTNAME
  and HDUNAME, or the status with which a header fails to read; the current
  HDU; the access mode), with one method for each cfitsio routine the
  library calls.
- `src/text.rs` holds the character-level rules: the data type code parsed
  from a TFORM value, upper-casing, names matched against templates
  (ignoring case, with `*`, `?` and `#` as wildcards), and how a string
  keyword value reads back.
- `src/fitsfile.rs` holds `FitsFile`: opening, creating, selecting an HDU by
  position or by name, describing HDUs, and appending tables and images.
  Each operation's contract is a spec function from the file before to the
  file after and the result.
- `src/laws.rs` proves properties across operations.
- `src/error.rs` and `src/types.rs` hold status codes, errors and the
  descriptive types.
- `app/` opens and creates files on disk through cfitsio, reads their
  structure into a `FitsFile`, and performs each change on disk before
  applying it to the model, rebuilding the model from disk when either side
  refuses a change.
