//! Plain-value model of the event substrate: severity levels, descriptors,
//! field handles and emitted events, together with their mathematical views.

use vstd::prelude::*;

verus! {

/// Severity ranking attached to an event descriptor.
#[derive(Clone, Copy, PartialEq, Eq, Structural, Debug)]
pub enum Level {
    Trace,
    Debug,
    Info,
    Warn,
    Error,
}

/// Whether an emission is a point-in-time event or a span interval.
/// The substrate defines no other kind.
#[derive(Clone, Copy, PartialEq, Eq, Structural, Debug)]
pub enum EventKind {
    Event,
    Span,
}

/// Handle to one declared field: its position in the declaring
/// descriptor's field-name list, plus that descriptor's call-site
/// identity. Two handles are mutually compatible only if their
/// call-site identities agree.
#[derive(Clone, Copy, PartialEq, Eq, Structural, Debug)]
pub struct Field {
    pub index: usize,
    pub callsite: u64,
}

impl DeepView for Field {
    type V = Field;

    open spec fn deep_view(&self) -> Field {
        *self
    }
}

/// Call-site identity reserved for the placeholder slots of the capture
/// buffer. No real descriptor carries it, so a placeholder handle never
/// matches a real field-name list and the substrate drops its slot.
pub const PLACEHOLDER_CALLSITE: u64 = 0;

/// The field handle that unused capture-buffer slots hold.
pub open spec fn placeholder_field() -> Field {
    Field { index: 0, callsite: PLACEHOLDER_CALLSITE }
}

/// A descriptor's declared field-name list together with the call-site
/// identity that validates field values against it.
#[derive(Debug)]
pub struct FieldSet {
    pub names: Vec<String>,
    pub callsite: u64,
}

/// Mathematical shape of a [`FieldSet`].
#[verifier::ext_equal]
pub ghost struct FieldSetView {
    pub names: Seq<Seq<char>>,
    pub callsite: u64,
}

impl View for FieldSet {
    type V = FieldSetView;

    open spec fn view(&self) -> FieldSetView {
        FieldSetView { names: self.names.deep_view(), callsite: self.callsite }
    }
}

/// A field handle is valid against a field-name list exactly when the
/// call-site identities agree and the index lies within the list; the
/// substrate silently drops any value presented with an invalid handle.
pub open spec fn field_matches(f: Field, fs: FieldSetView) -> bool {
    f.callsite == fs.callsite && f.index < fs.names.len()
}

/// Immutable description of an event's static shape: name, target,
/// source location, severity level, declared fields and kind tag.
#[derive(Debug)]
pub struct Metadata {
    pub name: String,
    pub target: String,
    pub level: Level,
    pub file: Option<String>,
    pub line: Option<u32>,
    pub module: Option<String>,
    pub fields: FieldSet,
    pub kind: EventKind,
}

/// Mathematical shape of a [`Metadata`].
#[verifier::ext_equal]
pub ghost struct MetaView {
    pub name: Seq<char>,
    pub target: Seq<char>,
    pub level: Level,
    pub file: Option<Seq<char>>,
    pub line: Option<u32>,
    pub module: Option<Seq<char>>,
    pub fields: FieldSetView,
    pub kind: EventKind,
}

impl View for Metadata {
    type V = MetaView;

    open spec fn view(&self) -> MetaView {
        MetaView {
            name: self.name@,
            target: self.target@,
            level: self.level,
            file: self.file.deep_view(),
            line: self.line,
            module: self.module.deep_view(),
            fields: self.fields@,
            kind: self.kind,
        }
    }
}

/// One emitted occurrence: a descriptor, the field value entries the
/// emission carried (an absent value means the field was declared but
/// not set), and an optional parent span.
#[derive(Debug)]
pub struct Event {
    pub metadata: Metadata,
    pub values: Vec<(Field, Option<String>)>,
    pub parent: Option<u64>,
}

/// Mathematical shape of an [`Event`].
#[verifier::ext_equal]
pub ghost struct EventView {
    pub metadata: MetaView,
    pub values: Seq<(Field, Option<Seq<char>>)>,
    pub parent: Option<u64>,
}

impl View for Event {
    type V = EventView;

    open spec fn view(&self) -> EventView {
        EventView {
            metadata: self.metadata@,
            values: self.values.deep_view(),
            parent: self.parent,
        }
    }
}

/// An event is well formed when its descriptor carries a real call-site
/// identity (not the reserved placeholder) and every entry that carries
/// a value holds a handle valid against the descriptor's field-name
/// list, so the substrate accepts it.
pub open spec fn event_wf(e: EventView) -> bool {
    &&& e.metadata.fields.callsite != PLACEHOLDER_CALLSITE
    &&& forall|i: int|
        0 <= i < e.values.len() && e.values[i].1 is Some ==> field_matches(
            #[trigger] e.values[i].0,
            e.metadata.fields,
        )
}

/// Failure reported by a downstream formatter; the layer carries it
/// through verbatim and never produces one of its own.
#[derive(Clone, Copy, PartialEq, Eq, Structural, Debug)]
pub struct FmtError;

} // verus!
