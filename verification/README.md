# commerce_theory

Commerce and marketplace rules as a Verus library: validated records with smart
constructors, checked money and quantity arithmetic, order and payment state
machines, accounting journals, dropshipping and supplier rules, event sourcing
and replay, keyed totals and ranking.

Record fields are private to the crate. Each record whose constructor checks
something carries that check as a type invariant (`valid`), so every value of
it, however it was obtained, satisfies what `try_new` checks. Contracts speak
of records through spec accessors (`spec_<field>`), and spec constructors
(`spec_new`) describe the value a constructor returns. The accessors are the
one place that reads fields; every other spec function is `open` and written
over them, and each module's broadcast group `group_<module>_record_fields`
gives what the accessors return on a `spec_new` value.

Each public function states in `ensures` what it returns for every input it
accepts; constructors return `Err` exactly on the inputs whose invariant fails.
Properties that span several functions are public proof functions named
`lemma_*` in the module they are about (for instance
`event_sourcing::lemma_replay_concatenation`,
`keyed_totals::lemma_key_totals_sum_to_overall_total`,
`opportunity_ranking::lemma_merge_sort_sorts`).

Calendar dates are turned into day numbers by the `time` crate, behind one
trusted wrapper in `foundation.rs`; timestamps and durations are otherwise plain
second counts.

Layout: `src/foundation.rs` holds identifiers, money helpers, errors and time;
the other modules under `src/` follow the domain areas; `tests/` runs the
library on concrete values.
