//! The verified core of a bridge that hosts a declarative UI tree inside a
//! native window: the hosted region it keeps, the positioning requests it
//! issues, and the decisions of the event loop that drives it.
pub mod geometry;
pub mod island;
pub mod event_loop;
