//! The mathematical model of the registry: the state of each bike, the error
//! taxonomy, and one transition function per operation.  Every executable
//! operation of [`crate::registry::Contract`] is specified as exactly one of
//! these transition functions applied to the registry's view.

use vstd::prelude::*;

verus! {

/// Why an operation on the registry was refused.
#[derive(Clone, Copy, Debug, PartialEq, Eq, Structural)]
pub enum BikeError {
    /// The caller referenced a bike index that does not exist.
    IndexOutOfRange,
    /// `use_bike`/`inspect_bike` was attempted on a bike that is not `Available`.
    NotAvailable,
    /// A return was attempted on a bike that is already `Available`.
    AlreadyAvailable,
    /// The caller is not the account that holds the bike.
    Unauthorized,
    /// The reward transfer resolved as failure, so the bike was not released.
    ExternalTransferFailed,
}

/// Abstract state of one bike; an occupying account is a sequence of
/// characters (the view of its account id).
pub enum BikeState {
    Available,
    InUse(Seq<char>),
    Inspection(Seq<char>),
}

/// The view of a freshly initialized registry: `n` bikes, all available.
pub open spec fn all_available(n: nat) -> Seq<BikeState> {
    Seq::new(n, |i: int| BikeState::Available)
}

/// Transition for `use_bike`: from `Available` the bike becomes
/// `InUse(caller)`; any other state is refused and left unchanged.
pub open spec fn use_bike_spec(bikes: Seq<BikeState>, index: int, caller: Seq<char>) -> (Result<
    (),
    BikeError,
>, Seq<BikeState>) {
    if !(0 <= index < bikes.len()) {
        (Err(BikeError::IndexOutOfRange), bikes)
    } else if bikes[index] is Available {
        (Ok(()), bikes.update(index, BikeState::InUse(caller)))
    } else {
        (Err(BikeError::NotAvailable), bikes)
    }
}

/// Transition for `inspect_bike`: from `Available` the bike becomes
/// `Inspection(caller)`; any other state is refused and left unchanged.
pub open spec fn inspect_bike_spec(bikes: Seq<BikeState>, index: int, caller: Seq<char>) -> (Result<
    (),
    BikeError,
>, Seq<BikeState>) {
    if !(0 <= index < bikes.len()) {
        (Err(BikeError::IndexOutOfRange), bikes)
    } else if bikes[index] is Available {
        (Ok(()), bikes.update(index, BikeState::Inspection(caller)))
    } else {
        (Err(BikeError::NotAvailable), bikes)
    }
}

/// Transition for `return_bike`.  On success the result carries
/// `Some(receiver)` exactly when a reward settlement toward `receiver` must
/// be started; in that case the bike stays in `Inspection` until the
/// settlement callback resolves it.  A bike in `InUse` is released
/// synchronously (`Ok(None)`).
pub open spec fn return_bike_spec(bikes: Seq<BikeState>, index: int, caller: Seq<char>) -> (Result<
    Option<Seq<char>>,
    BikeError,
>, Seq<BikeState>) {
    if !(0 <= index < bikes.len()) {
        (Err(BikeError::IndexOutOfRange), bikes)
    } else {
        match bikes[index] {
            BikeState::Available => (Err(BikeError::AlreadyAvailable), bikes),
            BikeState::InUse(holder) => if holder == caller {
                (Ok(None), bikes.update(index, BikeState::Available))
            } else {
                (Err(BikeError::Unauthorized), bikes)
            },
            BikeState::Inspection(inspector) => if inspector == caller {
                (Ok(Some(inspector)), bikes)
            } else {
                (Err(BikeError::Unauthorized), bikes)
            },
        }
    }
}

/// Transition for the settlement callback: on a successful transfer the bike
/// is released back to `Available`; on failure nothing changes and the
/// failure is reported, leaving the bike in `Inspection` indefinitely.
pub open spec fn callback_return_bike_spec(
    bikes: Seq<BikeState>,
    index: int,
    transfer_succeeded: bool,
) -> (Result<(), BikeError>, Seq<BikeState>) {
    if !(0 <= index < bikes.len()) {
        (Err(BikeError::IndexOutOfRange), bikes)
    } else if transfer_succeeded {
        (Ok(()), bikes.update(index, BikeState::Available))
    } else {
        (Err(BikeError::ExternalTransferFailed), bikes)
    }
}

} // verus!
