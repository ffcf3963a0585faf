//! Native boundary library: a few stateless operations shaped for a C calling
//! convention. Each takes plain values and returns plain values; the host-facing
//! shim turns raw pointers into these values, prints what is to be printed,
//! and hands owned strings across as null-terminated buffers.
pub mod arith;
pub mod record;
pub mod text;
