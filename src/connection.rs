use vstd::prelude::*;

use crate::error::DbError;

verus! {

/// The one pool handle of a process: empty until the first successful
/// initialization, and never replaced after it.
///
/// The slot is generic over the handle, so that the driver's pool type stays
/// with the caller that opens it.
pub struct PoolSlot<P> {
    pool: Option<P>,
}

impl<P> PoolSlot<P> {
    /// The handle held, if any.
    pub closed spec fn held(&self) -> Option<P> {
        self.pool
    }

    /// A slot in the uninitialized state.
    pub fn new() -> (r: PoolSlot<P>)
        ensures
            r.held() is None,
    {
        PoolSlot { pool: None }
    }

    /// Whether a pool has been installed.
    pub fn is_initialized(&self) -> (r: bool)
        ensures
            r == self.held() is Some,
    {
        self.pool.is_some()
    }

    /// Installs `pool` if the slot is empty. A second initialization fails
    /// with `AlreadyInitialized` and keeps the pool installed first; the
    /// rejected handle is dropped.
    pub fn init_pool(&mut self, pool: P) -> (r: Result<(), DbError>)
        ensures
            old(self).held() is None ==> r is Ok && final(self).held() == Some(pool),
            old(self).held() is Some ==> r == Err::<(), DbError>(DbError::AlreadyInitialized)
                && final(self).held() == old(self).held(),
    {
        if self.pool.is_some() {
            Err(DbError::AlreadyInitialized)
        } else {
            self.pool = Some(pool);
            Ok(())
        }
    }

    /// The installed pool, or `NotInitialized` before initialization.
    pub fn get_pool(&self) -> (r: Result<&P, DbError>)
        ensures
            self.held() is None ==> r == Err::<&P, DbError>(DbError::NotInitialized),
            self.held() is Some ==> r is Ok && *r->Ok_0 == self.held()->Some_0,
    {
        match &self.pool {
            Some(p) => Ok(p),
            None => Err(DbError::NotInitialized),
        }
    }
}

} // verus!
