//! A verified streaming file-compression pipeline.
//!
//! The library moves bytes from a source through a gzip encoder to a sink,
//! in fixed-size chunks, and reports transfer statistics. File handles and
//! the clock belong to the caller: the pipeline is a state machine that
//! decides, and the caller performs the reads, writes, opens and closes it
//! asks for.

pub mod codec;
pub mod order;
pub mod pipeline;
pub mod text;
pub mod words;

use vstd::prelude::*;

verus! {

/// The default chunk size for a transfer, in bytes.
pub const DEFAULT_CHUNK_SIZE: usize = 8192;

} // verus!
