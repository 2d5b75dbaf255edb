//! Statements of what the layer guarantees, proved from the definitions
//! in [`crate::formatter`]: pass-through is the identity, an override
//! changes the level and nothing else, capture keeps every valued field
//! up to the capacity and truncates beyond it, and the reconstructed
//! descriptor stays call-site-compatible with every captured handle.

use vstd::prelude::*;

use crate::model::{
    event_wf, field_matches, placeholder_field, EventView, Field, FieldSetView, Level,
    PLACEHOLDER_CALLSITE,
};
use crate::formatter::{captured_entries, present_entries, spec_override, spec_plan};
use crate::visitor::padded_slots;

verus! {

/// What a bounded capture retains is exactly the leading valued entries:
/// all of them when they number at most `cap`, else the first `cap`.
pub proof fn lemma_captured_is_present_prefix(values: Seq<(Field, Option<Seq<char>>)>, cap: nat)
    ensures
        captured_entries(values, cap) == if present_entries(values).len() <= cap {
            present_entries(values)
        } else {
            present_entries(values).take(cap as int)
        },
        captured_entries(values, cap).len() <= cap,
    decreases values.len(),
{
    if values.len() == 0 {
    } else {
        let prefix = values.drop_last();
        lemma_captured_is_present_prefix(prefix, cap);
        match values.last().1 {
            Some(text) => {
                if present_entries(prefix).len() < cap {
                    assert(present_entries(values).take(present_entries(values).len() as int)
                        =~= present_entries(values));
                } else {
                    assert(present_entries(prefix).push((values.last().0, text)).take(cap as int)
                        =~= present_entries(prefix).take(cap as int));
                }
            },
            None => {
            },
        }
    }
}

/// The valued entries of a padded slot array are exactly the captured
/// entries it was padded from: the placeholder slots carry no value.
pub proof fn lemma_present_of_padded(cap: nat, captured: Seq<(Field, Seq<char>)>)
    requires
        captured.len() <= cap,
    ensures
        present_entries(padded_slots(cap, captured)) == captured,
    decreases cap,
{
    if cap == 0 {
        assert(present_entries(padded_slots(cap, captured)) =~= captured);
    } else {
        let slots = padded_slots(cap, captured);
        if captured.len() == cap {
            let front = captured.drop_last();
            assert(slots.drop_last() =~= padded_slots((cap - 1) as nat, front));
            lemma_present_of_padded((cap - 1) as nat, front);
            assert(slots.last() == (captured.last().0, Some(captured.last().1)));
            assert(front.push(captured.last()) =~= captured);
            assert(present_entries(slots) =~= captured);
        } else {
            assert(slots.drop_last() =~= padded_slots((cap - 1) as nat, captured));
            lemma_present_of_padded((cap - 1) as nat, captured);
            assert(slots.last().1 is None);
        }
    }
}

/// When the predicate requests no override, the layer hands the
/// downstream formatter the original event itself, unchanged; disabling
/// the layer entirely would delegate the very same value.
pub proof fn lemma_no_override_passes_through(e: EventView, cap: nat)
    ensures
        spec_plan(e, None, cap) == e,
{
}

/// A reconstructed event's descriptor carries exactly the overriding
/// level; its name, target, file, line, module path, field-name list,
/// call-site identity, kind and parent link are the original's.
pub proof fn lemma_override_changes_only_level(e: EventView, new_level: Level, cap: nat)
    ensures
        spec_override(e, new_level, cap).metadata.level == new_level,
        spec_override(e, new_level, cap).metadata.name == e.metadata.name,
        spec_override(e, new_level, cap).metadata.target == e.metadata.target,
        spec_override(e, new_level, cap).metadata.file == e.metadata.file,
        spec_override(e, new_level, cap).metadata.line == e.metadata.line,
        spec_override(e, new_level, cap).metadata.module == e.metadata.module,
        spec_override(e, new_level, cap).metadata.fields == e.metadata.fields,
        spec_override(e, new_level, cap).metadata.kind == e.metadata.kind,
        spec_override(e, new_level, cap).parent == e.parent,
{
}

/// The central compatibility invariant: the reconstructed descriptor
/// keeps the original's field-name list and call-site identity, so
/// every field handle valid against the original — in particular every
/// captured entry's handle — is valid against the reconstruction, and
/// the substrate will not drop its value.
pub proof fn lemma_rebuilt_descriptor_compatible(
    e: EventView,
    new_level: Level,
    cap: nat,
    f: Field,
)
    requires
        field_matches(f, e.metadata.fields),
    ensures
        field_matches(f, spec_override(e, new_level, cap).metadata.fields),
{
}

/// An event with at most `cap` valued fields loses nothing: every field
/// present on the original is present on the reconstruction with the
/// same rendered value, in the original visitation order.
pub proof fn lemma_within_capacity_all_fields_kept(e: EventView, new_level: Level, cap: nat)
    requires
        present_entries(e.values).len() <= cap,
    ensures
        present_entries(spec_override(e, new_level, cap).values) == present_entries(e.values),
{
    lemma_captured_is_present_prefix(e.values, cap);
    lemma_present_of_padded(cap, captured_entries(e.values, cap));
}

/// An event with more valued fields than `cap` is truncated, not
/// corrupted: exactly `cap` fields appear on the reconstruction, and
/// they are the first `cap` valued fields in visitation order.
pub proof fn lemma_over_capacity_truncates(e: EventView, new_level: Level, cap: nat)
    requires
        present_entries(e.values).len() > cap,
    ensures
        present_entries(spec_override(e, new_level, cap).values) == present_entries(
            e.values,
        ).take(cap as int),
        present_entries(spec_override(e, new_level, cap).values).len() == cap,
{
    lemma_captured_is_present_prefix(e.values, cap);
    lemma_present_of_padded(cap, captured_entries(e.values, cap));
}

/// Reconstruction is a function of the event, the decision and the
/// capacity alone: two passes over equal events with equal decisions
/// plan equal delegated events, so formatting the same event twice
/// through the layer delegates identical values both times.
pub proof fn lemma_plan_deterministic(
    e1: EventView,
    e2: EventView,
    d1: Option<Level>,
    d2: Option<Level>,
    cap: nat,
)
    requires
        e1 == e2,
        d1 == d2,
    ensures
        spec_plan(e1, d1, cap) == spec_plan(e2, d2, cap),
{
}

/// The reconstruction preserves the parent link: a child event's parent
/// after the override is the original's parent, and a parentless event
/// stays parentless.
pub proof fn lemma_parent_preserved(e: EventView, new_level: Level, cap: nat)
    ensures
        spec_override(e, new_level, cap).parent == e.parent,
{
}

/// Against a real descriptor the reserved placeholder handle never
/// matches, so the substrate drops the unused trailing capture slots.
pub proof fn lemma_placeholder_never_matches(fs: FieldSetView)
    requires
        fs.callsite != PLACEHOLDER_CALLSITE,
    ensures
        !field_matches(placeholder_field(), fs),
{
}

/// Every valued entry retained from `values` holds a handle that the
/// entry it came from held, so validity against a field-name list
/// carries over from the original entries to the retained ones.
proof fn lemma_present_fields_match(
    values: Seq<(Field, Option<Seq<char>>)>,
    fs: FieldSetView,
)
    requires
        forall|i: int|
            0 <= i < values.len() && values[i].1 is Some ==> field_matches(
                #[trigger] values[i].0,
                fs,
            ),
    ensures
        forall|j: int|
            0 <= j < present_entries(values).len() ==> field_matches(
                #[trigger] present_entries(values)[j].0,
                fs,
            ),
    decreases values.len(),
{
    if values.len() == 0 {
    } else {
        let prefix = values.drop_last();
        assert(forall|i: int|
            0 <= i < prefix.len() && prefix[i].1 is Some ==> field_matches(
                #[trigger] prefix[i].0,
                fs,
            ));
        lemma_present_fields_match(prefix, fs);
        let p = present_entries(values);
        let pp = present_entries(prefix);
        assert forall|j: int| 0 <= j < p.len() implies field_matches(#[trigger] p[j].0, fs) by {
            match values.last().1 {
                Some(text) => {
                    assert(p == pp.push((values.last().0, text)));
                    if j < pp.len() {
                        assert(p[j] == pp[j]);
                    } else {
                        assert(p[j].0 == values.last().0);
                        assert(values[values.len() - 1].1 is Some);
                    }
                },
                None => {
                    assert(p == pp);
                    assert(p[j] == pp[j]);
                },
            }
        }
    }
}

/// The reconstruction of a well-formed event is well formed: the
/// rebuilt descriptor keeps the real call-site identity, every slot
/// that carries a value holds a handle valid against it, and the
/// trailing slots carry no value — so the substrate accepts exactly the
/// captured fields and the rebuilt event never comes out corrupted.
pub proof fn lemma_override_preserves_wf(e: EventView, new_level: Level, cap: nat)
    requires
        event_wf(e),
    ensures
        event_wf(spec_override(e, new_level, cap)),
{
    let captured = captured_entries(e.values, cap);
    let fs = e.metadata.fields;
    lemma_captured_is_present_prefix(e.values, cap);
    lemma_present_fields_match(e.values, fs);
    assert forall|j: int| 0 <= j < captured.len() implies field_matches(
        #[trigger] captured[j].0,
        fs,
    ) by {
        assert(captured[j] == present_entries(e.values)[j]);
    }
}

} // verus!

