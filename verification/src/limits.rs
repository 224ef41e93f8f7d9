//! The fixed sizes and times of the gateway.

use vstd::prelude::*;

verus! {

/// Depth of each of the two job queues.
pub const JOB_QUEUE_DEPTH: usize = 256;

/// Depth of the channel that carries pool lines to a miner's connection.
pub const POOL_TO_MINER_DEPTH: usize = 12;

/// Depth of the channel that carries a miner's lines to its pool.
pub const MINER_TO_POOL_DEPTH: usize = 32;

/// Permits for CPU-bound jobs where none are configured.
pub const DEFAULT_CPU_PERMITS: u64 = 100;

/// Seconds after which a connect to a pool is given up.
pub const POOL_CONNECT_TIMEOUT_SECS: u64 = 3;

/// Seconds between two reports.
pub const TELEMETRY_PERIOD_SECS: u64 = 10;

/// The port on which miners are listened for where none is configured.
pub const DEFAULT_PORT: u16 = 5555;

/// Bytes asked of a miner's socket in one read.
pub const READ_CHUNK: usize = 256;

/// Bytes that a line buffer is made for.
pub const LINE_BUFFER_CAPACITY: usize = 1024;

} // verus!
