//! Shared activation guard of a native service.
//!
//! A native service is started by its first owner and stopped by its last one.
//! The number of owners lives in a [`ServiceCounter`], which the program keeps
//! in one place (behind a lock where several threads acquire the service).

use vstd::prelude::*;

verus! {

/// Number of live owners of one native service.
///
/// The service is running exactly while the number is not zero.
pub struct ServiceCounter {
    count: usize,
}

/// Why a service could not be acquired.
#[derive(Debug)]
pub enum ServiceError<E> {
    /// The service admits a single owner and already has one.
    AlreadyActive,
    /// The service was stopped and its start routine failed.
    Start(E),
}

/// Membership in the set of owners of a service. It carries the routine that
/// stops the service, to be run when the last owner leaves.
///
/// It is obtained from [`ServiceReference::new`] or [`ServiceReference::enter`]
/// and given back with [`ServiceReference::release`] or
/// [`ServiceReference::leave`].
pub struct ServiceReference<C> {
    cleanup_fn: C,
}

/// What acquiring does to a counter that stands at `owners`: the new number
/// of owners, or the failure. `started` is what the start routine returned;
/// it is looked at only when there was no owner.
pub open spec fn acquire_outcome<E>(owners: nat, exclusive: bool, started: Result<(), E>) -> Result<
    nat,
    ServiceError<E>,
> {
    if owners == 0 {
        match started {
            Ok(_) => Ok(1nat),
            Err(e) => Err(ServiceError::Start(e)),
        }
    } else if exclusive {
        Err(ServiceError::AlreadyActive)
    } else {
        Ok(owners + 1)
    }
}

/// Whether `r` and the counter `after` are what `acquire_outcome` asks for,
/// the membership carrying `cleanup_fn`.
pub open spec fn acquired<E, C>(
    before: nat,
    exclusive: bool,
    started: Result<(), E>,
    cleanup_fn: C,
    r: Result<ServiceReference<C>, ServiceError<E>>,
    after: nat,
) -> bool {
    match acquire_outcome(before, exclusive, started) {
        Ok(n) => r matches Ok(service) && service.cleanup() == cleanup_fn && after == n,
        Err(e) => r == Err::<ServiceReference<C>, ServiceError<E>>(e) && after == before,
    }
}

/// Whether `r` and the counter `after` are what acquiring gives when the
/// start routine is `init_fn`: with an owner present the routine plays no
/// part; without one, `r` follows what the routine returned.
pub open spec fn acquired_through<E, I: FnOnce() -> Result<(), E>, C>(
    init_fn: I,
    before: nat,
    exclusive: bool,
    cleanup_fn: C,
    r: Result<ServiceReference<C>, ServiceError<E>>,
    after: nat,
) -> bool {
    if before != 0 {
        acquired(before, exclusive, Ok::<(), E>(()), cleanup_fn, r, after)
    } else {
        match r {
            Ok(service) => init_fn.ensures((), Ok(())) && service.cleanup() == cleanup_fn && after
                == 1,
            Err(ServiceError::Start(e)) => init_fn.ensures((), Err(e)) && after == 0,
            Err(ServiceError::AlreadyActive) => false,
        }
    }
}

impl ServiceCounter {
    /// The number of owners.
    pub closed spec fn owners(&self) -> nat {
        self.count as nat
    }

    /// A counter for a service that nobody owns yet.
    pub fn new() -> (c: Self)
        ensures
            c.owners() == 0,
    {
        ServiceCounter { count: 0 }
    }

    /// The number of owners.
    pub fn count(&self) -> (n: usize)
        ensures
            n == self.owners(),
    {
        self.count
    }

    /// Whether the service is running.
    pub fn is_active(&self) -> (b: bool)
        ensures
            b == (self.owners() != 0),
    {
        self.count != 0
    }
}

impl<C> ServiceReference<C> {
    /// The routine that stops the service.
    pub closed spec fn cleanup(&self) -> C {
        self.cleanup_fn
    }

    /// Registers one more owner, given what the start routine returned.
    ///
    /// `started` is read only when the service had no owner; pass `Ok(())`
    /// when the start routine did not have to run.
    pub fn enter<E>(
        counter: &mut ServiceCounter,
        exclusive: bool,
        started: Result<(), E>,
        cleanup_fn: C,
    ) -> (r: Result<Self, ServiceError<E>>)
        requires
            old(counter).owners() < usize::MAX,
        ensures
            acquired(
                old(counter).owners(),
                exclusive,
                started,
                cleanup_fn,
                r,
                final(counter).owners(),
            ),
    {
        if counter.count == 0 {
            match started {
                Ok(_) => {
                    counter.count = 1;
                    Ok(ServiceReference { cleanup_fn })
                },
                Err(e) => Err(ServiceError::Start(e)),
            }
        } else if exclusive {
            Err(ServiceError::AlreadyActive)
        } else {
            counter.count = counter.count + 1;
            Ok(ServiceReference { cleanup_fn })
        }
    }

    /// Acquires the service, running `init_fn` if and only if it has no owner.
    ///
    /// An exclusive acquisition fails while the service has an owner. A failure
    /// of `init_fn` is handed on and leaves the counter as it was. On success
    /// the membership keeps `cleanup_fn` for the day the service is stopped.
    pub fn new<E, I: FnOnce() -> Result<(), E>>(
        counter: &mut ServiceCounter,
        exclusive: bool,
        init_fn: I,
        cleanup_fn: C,
    ) -> (r: Result<Self, ServiceError<E>>)
        requires
            old(counter).owners() < usize::MAX,
            old(counter).owners() == 0 ==> init_fn.requires(()),
        ensures
            acquired_through(
                init_fn,
                old(counter).owners(),
                exclusive,
                cleanup_fn,
                r,
                final(counter).owners(),
            ),
    {
        if counter.count == 0 {
            let started = init_fn();
            proof {
                if let Ok(unit) = started {
                    assert(unit == ());
                    assert(started == Ok::<(), E>(()));
                }
            }
            Self::enter(counter, exclusive, started, cleanup_fn)
        } else {
            Self::enter(counter, exclusive, Ok(()), cleanup_fn)
        }
    }

    /// Removes one owner. If it was the last, the service has to be stopped:
    /// the routine that does so is returned, and nothing otherwise.
    pub fn leave(self, counter: &mut ServiceCounter) -> (due: Option<C>)
        requires
            old(counter).owners() > 0,
        ensures
            final(counter).owners() == old(counter).owners() - 1,
            due == if old(counter).owners() == 1 {
                Some(self.cleanup())
            } else {
                None
            },
    {
        counter.count = counter.count - 1;
        if counter.count == 0 {
            Some(self.cleanup_fn)
        } else {
            None
        }
    }
}

impl<C: FnOnce()> ServiceReference<C> {
    /// Gives the membership back, running the routine that stops the service
    /// if and only if this was the last owner.
    pub fn release(self, counter: &mut ServiceCounter)
        requires
            old(counter).owners() > 0,
            old(counter).owners() == 1 ==> self.cleanup().requires(()),
        ensures
            final(counter).owners() == old(counter).owners() - 1,
            old(counter).owners() == 1 ==> self.cleanup().ensures((), ()),
    {
        if let Some(cleanup_fn) = self.leave(counter) {
            cleanup_fn();
        }
    }
}

/// Acquiring succeeds exactly when the service has no owner and starts, or
/// has owners and is shared; a success adds one owner, so that the service
/// has an owner afterwards. It is refused as already active exactly when an
/// exclusive acquisition meets an owner, and fails with the start routine's
/// error exactly when there was no owner and the routine failed.
pub proof fn lemma_acquire_outcome<E>(owners: nat, exclusive: bool, started: Result<(), E>)
    ensures
        match acquire_outcome(owners, exclusive, started) {
            Ok(n) => n == owners + 1 && (if owners == 0 {
                started is Ok
            } else {
                !exclusive
            }),
            Err(ServiceError::AlreadyActive) => exclusive && owners != 0,
            Err(ServiceError::Start(e)) => owners == 0 && started == Err::<(), E>(e),
        },
{
}

} // verus!
