# typst_align

Alignments of content along the horizontal and vertical layout axes, verified
with Verus.

- `src/layout.rs`: text directions, axes, sides and the two-component `Axes`.
- `src/fixed.rs`: fixed (start/center/end) alignments and the `FixAlignment`
  trait that resolves an axis alignment under a text direction.
- `src/horizontal.rs`, `src/vertical.rs`: horizontal and vertical alignments,
  their outer variants without a center, inversion, names and conversions.
- `src/alignment.rs`: the general `Alignment`, its components, axis, inverse,
  sum (`+`), folding, names and conversions.
- `src/specific.rs`: `SpecificAlignment<H, V>`, restricted to given component
  kinds, and its cast from a general alignment.
- `src/error.rs`: why a sum or a conversion fails, and its message.
- `src/eco.rs`: the `ecow::EcoString` calls that the names and messages use.
- `src/identity.rs`: the specification of std's reflexive `From<T> for T`.
- `src/laws.rs`: properties across the operations, proved.
- `app/`: positions in a container (floating-point lengths), the named
  alignment constants, and results with string errors.
