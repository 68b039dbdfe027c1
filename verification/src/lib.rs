//! Verified core of the layer panel and of the line and freehand drawing tools.
//!
//! The tools are modelled as finite state machines: each incoming message is
//! turned into a new state and an ordered list of responses that the host
//! application carries out (document transactions, layer operations, hint and
//! cursor updates, snapping).

pub mod byte_order;
pub mod freehand_tool;
pub mod layer_panel;
pub mod line_tool;
pub mod tool;
