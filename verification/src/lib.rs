//! A typed, fallible value-conversion and rooting-safety layer over a model
//! of an embedded, garbage-collected scripting engine.
//!
//! Native code needs strongly-typed conversions from dynamic engine values
//! into host types, with an explicit strictness mode and per-target numeric
//! edge-case policies, while transient iteration state stays registered on
//! a root stack so that collection can never invalidate it mid-conversion,
//! and while no value crosses an isolation-domain boundary undetected.
//!
//! The engine itself is an external collaborator; this crate holds the
//! conversion protocol, the rooting guard, the call-context abstraction and
//! the isolation-domain discipline, stated and proved over a data model of
//! engine values.

pub use crate::arguments::Arguments;
pub use crate::context::Context;
pub use crate::conversions::ConversionBehavior;
pub use crate::conversions::FromValue;
pub use crate::error::Error;
pub use crate::error::ErrorKind;
pub use crate::value::Value;

pub mod arguments;
pub mod context;
pub mod conversions;
pub mod error;
pub mod format;
pub mod laws;
pub mod value;
