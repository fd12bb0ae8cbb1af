//! A paste service core: random paste identifiers, syntax-highlighted
//! rendering with per-line anchors, a create-only paste store and the
//! submit / fetch flows that tie them together.

pub mod ident;
pub mod text;
pub mod highlight;
pub mod paste;
pub mod pipeline;
