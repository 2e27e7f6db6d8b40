use vstd::prelude::*;

verus! {

/// Pool settings: the hard cap on live resources and three optional time
/// budgets, in milliseconds. A missing budget means "wait indefinitely".
pub struct PoolConfig {
    /// Maximum number of resources that may exist at once.
    pub max_size: usize,
    /// Deadline for one call of the manager's `create`.
    pub create_timeout: Option<u64>,
    /// Deadline for receiving a returned resource.
    pub wait_timeout: Option<u64>,
    /// Deadline for one call of the manager's `recycle`.
    pub recycle_timeout: Option<u64>,
}

impl PoolConfig {
    /// A configuration with the given cap and no time budgets.
    pub fn new(max_size: usize) -> (r: PoolConfig)
        ensures
            r.max_size == max_size,
            r.create_timeout is None,
            r.wait_timeout is None,
            r.recycle_timeout is None,
    {
        PoolConfig { max_size, create_timeout: None, wait_timeout: None, recycle_timeout: None }
    }
}

} // verus!
