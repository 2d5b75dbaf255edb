//! The level-override layer: decides pass-through versus reconstruction
//! for each event and, when an override is requested, rebuilds an
//! equivalent event at the new level before delegating downstream.

use vstd::prelude::*;

use crate::model::{Event, EventKind, EventView, Field, FieldSet, FmtError, Level, MetaView,
    Metadata};
use crate::visitor::{padded_slots, Visitor};

verus! {

/// What one capacity-`cap` capture pass over `values` retains: the
/// entries that actually carry a value, in visitation order, up to
/// `cap` of them; every later valued entry is silently dropped.
pub open spec fn captured_entries(
    values: Seq<(Field, Option<Seq<char>>)>,
    cap: nat,
) -> Seq<(Field, Seq<char>)>
    decreases values.len(),
{
    if values.len() == 0 {
        Seq::empty()
    } else {
        let prefix = captured_entries(values.drop_last(), cap);
        match values.last().1 {
            Some(text) => if prefix.len() < cap {
                prefix.push((values.last().0, text))
            } else {
                prefix
            },
            None => prefix,
        }
    }
}

/// The entries of `values` that actually carry a value, in order,
/// without any capacity bound.
pub open spec fn present_entries(values: Seq<(Field, Option<Seq<char>>)>) -> Seq<
    (Field, Seq<char>),
>
    decreases values.len(),
{
    if values.len() == 0 {
        Seq::empty()
    } else {
        let prefix = present_entries(values.drop_last());
        match values.last().1 {
            Some(text) => prefix.push((values.last().0, text)),
            None => prefix,
        }
    }
}

/// The reconstructed event's descriptor: structurally identical to `m` —
/// same name, target, source location, field-name list and call-site
/// identity — except that it carries `new_level`. The kind tag is
/// recomputed from the original's and is therefore unchanged.
pub open spec fn spec_rebuild_metadata(m: MetaView, new_level: Level) -> MetaView {
    MetaView { level: new_level, ..m }
}

/// The reconstructed event: the rebuilt descriptor, the slot array a
/// capacity-`cap` capture pass over the original's value entries leaves
/// behind, and the original's parent link.
pub open spec fn spec_override(e: EventView, new_level: Level, cap: nat) -> EventView {
    EventView {
        metadata: spec_rebuild_metadata(e.metadata, new_level),
        values: padded_slots(cap, captured_entries(e.values, cap)),
        parent: e.parent,
    }
}

/// The event the layer hands downstream for decision `d`: the original
/// untouched when no override was requested, else the reconstruction at
/// the new level.
pub open spec fn spec_plan(e: EventView, d: Option<Level>, cap: nat) -> EventView {
    match d {
        None => e,
        Some(new_level) => spec_override(e, new_level, cap),
    }
}

/// Duplicates an optional owned string at the value level.
fn clone_opt_string(o: &Option<String>) -> (r: Option<String>)
    ensures
        r.deep_view() == o.deep_view(),
{
    match o {
        Some(s) => Some(s.clone()),
        None => None,
    }
}

/// Duplicates a field-name list; the entries are immutable shared data,
/// so this is the reference-level copy the reconstruction relies on.
fn clone_names(names: &Vec<String>) -> (r: Vec<String>)
    ensures
        r.deep_view() == names.deep_view(),
{
    let mut r: Vec<String> = Vec::new();
    let mut i: usize = 0;
    while i < names.len()
        invariant
            i <= names.len(),
            r.len() == i,
            forall|j: int| 0 <= j < i ==> #[trigger] r.deep_view()[j] == names.deep_view()[j],
        decreases names.len() - i,
    {
        let ghost prior = r.deep_view();
        r.push(names[i].clone());
        proof {
            assert(r.deep_view() =~= prior.push(names.deep_view()[i as int]));
        }
        i = i + 1;
    }
    proof {
        assert(r.deep_view() =~= names.deep_view());
    }
    r
}

/// Builds the reconstructed descriptor: duplicates the original's
/// reference-level data — name, target, location, field-name list and
/// call-site identity — and substitutes the overriding level; the kind
/// tag is recomputed from the original's.
pub fn rebuild_metadata(m: &Metadata, new_level: Level) -> (r: Metadata)
    ensures
        r@ == spec_rebuild_metadata(m@, new_level),
{
    let kind = match m.kind {
        EventKind::Event => EventKind::Event,
        EventKind::Span => EventKind::Span,
    };
    let r = Metadata {
        name: m.name.clone(),
        target: m.target.clone(),
        level: new_level,
        file: clone_opt_string(&m.file),
        line: m.line,
        module: clone_opt_string(&m.module),
        fields: FieldSet { names: clone_names(&m.fields.names), callsite: m.fields.callsite },
        kind,
    };
    proof {
        assert(r@ =~= spec_rebuild_metadata(m@, new_level));
    }
    r
}

/// Reconstructs `event` at `new_level`: an equivalent event whose
/// descriptor differs only in its level, whose value entries are what a
/// capacity-`N` capture pass over the original's entries retains, and
/// whose parent link is the original's.
pub fn apply_override<const N: usize>(event: &Event, new_level: Level) -> (r: Event)
    ensures
        r@ == spec_override(event@, new_level, N as nat),
{
    let metadata = rebuild_metadata(&event.metadata, new_level);
    let ghost evals = event@.values;
    let mut visitor: Visitor<N> = Visitor::new();
    let mut i: usize = 0;
    while i < event.values.len()
        invariant
            visitor.wf(),
            i <= event.values.len(),
            evals == event.values.deep_view(),
            visitor.count() == captured_entries(evals.take(i as int), N as nat).len(),
            visitor.slots() == padded_slots(
                N as nat,
                captured_entries(evals.take(i as int), N as nat),
            ),
        decreases event.values.len() - i,
    {
        let ghost before = captured_entries(evals.take(i as int), N as nat);
        proof {
            assert(evals.take(i + 1).drop_last() =~= evals.take(i as int));
            assert(evals.take(i + 1).last() == evals[i as int]);
        }
        let entry = &event.values[i];
        match &entry.1 {
            Some(s) => {
                proof {
                    assert(evals[i as int].1 == Some(s@));
                    assert(evals[i as int].0 == entry.0);
                }
                visitor.record(entry.0, s.clone());
                proof {
                    if before.len() < N {
                        assert(captured_entries(evals.take(i + 1), N as nat) == before.push(
                            (entry.0, s@),
                        ));
                        assert(padded_slots(N as nat, before).update(
                            before.len() as int,
                            (entry.0, Some(s@)),
                        ) =~= padded_slots(N as nat, before.push((entry.0, s@))));
                    } else {
                        assert(captured_entries(evals.take(i + 1), N as nat) == before);
                    }
                }
            },
            None => {
                proof {
                    assert(evals[i as int].1 is None);
                    assert(captured_entries(evals.take(i + 1), N as nat) == before);
                }
            },
        }
        i = i + 1;
    }
    proof {
        assert(evals.take(event.values.len() as int) =~= evals);
    }
    let values = visitor.get_values();
    let r = Event { metadata, values, parent: event.parent };
    proof {
        assert(r@ =~= spec_override(event@, new_level, N as nat));
    }
    r
}

/// Level-override layer: wraps a downstream formatter `F` and a
/// decision predicate `T`; it intercepts each event, asks the predicate
/// whether the event's level should be overridden for display, rebuilds
/// the event when it should, and always ends by delegating downstream.
pub struct EventFormatter<const VISITOR_SIZE: usize, F, T> {
    formatter: F,
    check: T,
}

impl<const VISITOR_SIZE: usize, F, T> EventFormatter<VISITOR_SIZE, F, T> {
    /// The decision predicate this layer was built with.
    pub closed spec fn check_fn(self) -> T {
        self.check
    }

    /// The downstream formatter this layer delegates to.
    pub closed spec fn formatter_fn(self) -> F {
        self.formatter
    }
}

impl<const VISITOR_SIZE: usize, F, T> EventFormatter<VISITOR_SIZE, F, T> where
    T: Fn(&Metadata) -> Option<Level> + Send + Sync,
 {
    /// Wraps `formatter`, overriding levels as `check` directs.
    pub fn new(formatter: F, check: T) -> (r: Self)
        ensures
            r.formatter_fn() == formatter,
            r.check_fn() == check,
    {
        EventFormatter { formatter, check }
    }
}

impl<const VISITOR_SIZE: usize, F, T> EventFormatter<VISITOR_SIZE, F, T> where
    F: Fn(&Event) -> Result<String, FmtError>,
    T: Fn(&Metadata) -> Option<Level> + Send + Sync,
 {
    /// Intercepts one event: evaluates the predicate on its descriptor;
    /// on "no override" it delegates the original event itself,
    /// untouched, and otherwise the reconstruction at the new level.
    /// The result is the downstream formatter's, propagated verbatim.
    ///
    /// The downstream formatter must not retain references to the event
    /// it is handed beyond the call; with plain owned values that is
    /// enforced by the borrow rather than left as a documented risk.
    pub fn format_event(&self, event: &Event) -> (r: Result<String, FmtError>)
        requires
            forall|m: &Metadata| #[trigger] call_requires(self.check_fn(), (m,)),
            forall|e: &Event| #[trigger] call_requires(self.formatter_fn(), (e,)),
        ensures
            exists|d: Option<Level>, planned: Event|
                {
                    &&& #[trigger] call_ensures(self.check_fn(), (&event.metadata,), d)
                    &&& planned@ == spec_plan(event@, d, VISITOR_SIZE as nat)
                    &&& #[trigger] call_ensures(self.formatter_fn(), (&planned,), r)
                },
    {
        let decision = (self.check)(&event.metadata);
        match decision {
            Some(new_level) => {
                let rebuilt = apply_override::<VISITOR_SIZE>(event, new_level);
                proof {
                    assert(call_requires(self.formatter_fn(), (&rebuilt,)));
                }
                let r = (self.formatter)(&rebuilt);
                proof {
                    assert(call_ensures(self.check_fn(), (&event.metadata,), Some(new_level))
                        && rebuilt@ == spec_plan(event@, Some(new_level), VISITOR_SIZE as nat)
                        && call_ensures(self.formatter_fn(), (&rebuilt,), r));
                }
                r
            },
            None => {
                proof {
                    assert(call_requires(self.formatter_fn(), (event,)));
                }
                let r = (self.formatter)(event);
                proof {
                    assert(call_ensures(self.check_fn(), (&event.metadata,), None::<Level>)
                        && event@ == spec_plan(event@, None, VISITOR_SIZE as nat)
                        && call_ensures(self.formatter_fn(), (event,), r));
                }
                r
            },
        }
    }
}

} // verus!
