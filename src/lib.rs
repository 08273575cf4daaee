//! Frame-accurate random access over a forward-only video decoder: the mapping
//! between timestamps and frame indices, a bounded cache that evicts by scrub
//! direction, a request queue with lookahead, and the decisions of the single
//! worker that owns the decoder.
pub mod cache;
pub mod frame_index;
pub mod laws;
pub mod queue;
pub mod testing;
pub mod worker;
