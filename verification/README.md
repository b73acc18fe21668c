# promo

The promotion, loyalty and backbone-catalogue domain logic of a pricing service, written in
Verus: every function in `src/` carries a `requires`/`ensures` contract that Verus proves.

- `src/decimal.rs`: the decimal money type (`Dec`), its exact value model, and the calls into
  `rust_decimal` the library makes (each behind a stated contract).
- `src/resolve.rs`: single-line price resolution (eligibility, the deterministic winner, the
  rule's effect, the discount cap).
- `src/cart.rs`: whole-basket resolution (line pass, bundle pass, order pass, allocation of
  order-level discounts back to the lines, reconciliation); `src/penny.rs`: tying the line
  nets out to the basket total to the cent.
- `src/loyalty.rs`, `src/claim.rs`: loyalty point derivations and promo-code claim decisions.
- `src/records/`: the stored records with their builders; `src/entity_kinds.rs`: their closed
  vocabularies.
- `src/value_objects.rs`, `src/backbone.rs`, `src/events.rs`, `src/specifications.rs`,
  `src/commands.rs`, `src/queries.rs`, `src/services.rs`, `src/api.rs`: the backbone aggregate.
- `app/`: the asynchronous shell — the write service over a store port, events, the command
  and query handlers, the HTTP surface, JSON patching of records.
- `tests/`: executable tests of the library.
