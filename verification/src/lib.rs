//! A bridge between an embedded, dynamically typed scripting environment and a
//! host rendering library.
//!
//! The hard part of such a binding is not the drawing calls themselves but the
//! scoped-resource protocol around them: the rendering library hands out a
//! drawing context that is only valid inside one logical frame, while the
//! scripting side issues independently dispatched calls with no notion of call
//! nesting.  The [`session`] module holds that protocol: a single-occupancy
//! resource slot, a begin/end state machine, and a dispatcher that forwards
//! drawing commands only while a session is open.
//!
//! Around it sit a typed marshalling layer ([`marshal`]) between the scripting
//! side's duck-typed tables and a small set of geometry and colour value types
//! ([`geometry`]), and case-insensitive symbol tables ([`symbols`]) resolving
//! key, mouse-button and gesture names to their enumerations.
//!
//! Everything that must touch the scripting engine or the rendering library
//! itself (window management, pixel output, input polling, floating-point
//! arithmetic on coordinates) stays outside this crate; the types here carry
//! 32-bit floats opaquely by their bit patterns.

pub mod geometry;
pub mod marshal;
pub mod session;
pub mod symbols;
pub mod text;
