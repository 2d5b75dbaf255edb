//! A severity-override layer for structured diagnostic events.
//!
//! The layer sits between event emission and rendering: a caller-supplied
//! predicate inspects each event's descriptor and may request a different
//! severity level for display. When it does, the layer rebuilds an
//! equivalent event — same name, target, source location, field-name list,
//! call-site identity and parent link, with every field value captured
//! into a bounded buffer — and hands the rebuilt event to the wrapped
//! downstream formatter; otherwise it delegates the original untouched.

pub mod formatter;
pub mod laws;
pub mod model;
pub mod visitor;
