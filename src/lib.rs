//! Integer core of a Monte-Carlo path tracer: packing of pixel colours into
//! 24-bit words, the partition of an image into row chunks, the messages that
//! stream a render to its consumer, the per-chunk worker and the consumer's
//! frame buffer, and the bounce-depth control of the colour integrator.

pub mod collide;
pub mod pixel;
pub mod schedule;
pub mod trace;
pub mod update;
pub mod worker;
