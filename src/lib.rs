//! A typed in-memory model of a subset of BPMN 2.0 process definitions,
//! built on a collection that always holds at least one element.

pub mod definitions;
pub mod non_empty;
