# geoarrow_rs_c

The verified core of a C ABI over geoarrow-rs: the geoarrow-c type
vocabulary, the codes of geoarrow data types, and the checks that a raw
Arrow C Data Interface schema tree must pass before arrow-rs reads it.

- `src/` is the library, verified with Verus. The checks on the schema tree
  run as a walk (`schema::SchemaWalk`) that asks its caller for one read at a
  time; `query::SchemaTypeQuery` adds the pointer checks and the type code.
  The laws in `schema.rs` and `query.rs` state that the walk makes exactly
  the reads of a recursive check of the tree, in order, and reports its
  result.
- `app/` is the C ABI: the `#[repr(C)]` structs, the exported functions, the
  raw pointer reads, and the calls into arrow-rs and geoarrow-rs.
- `tests/` run the library against in-memory schema trees and against
  schemas that arrow-rs and geoarrow-rs produce.
