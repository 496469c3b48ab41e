//! The guarantees of the registry's state machine, stated once over the
//! transition functions of [`crate::state`].  Because every operation of
//! [`crate::registry::Contract`] is specified as exactly one of those
//! transitions, each law here holds of the executable registry as well.

use vstd::prelude::*;

use crate::state::{
    BikeError, BikeState, all_available, callback_return_bike_spec, inspect_bike_spec,
    return_bike_spec, use_bike_spec,
};

verus! {

/// A freshly initialized registry of `n` bikes has exactly `n` bikes, every
/// one of them available.
pub proof fn lemma_fresh_registry_available(n: nat)
    ensures
        all_available(n).len() == n,
        forall|i: int| 0 <= i < n ==> all_available(n)[i] is Available,
{
}

/// Starting a use or an inspection of a bike that is not available always
/// fails with `NotAvailable` and leaves every bike unchanged.
pub proof fn lemma_begin_on_unavailable_fails(s: Seq<BikeState>, i: int, caller: Seq<char>)
    requires
        0 <= i < s.len(),
        !(s[i] is Available),
    ensures
        use_bike_spec(s, i, caller) == (Err::<(), BikeError>(BikeError::NotAvailable), s),
        inspect_bike_spec(s, i, caller) == (Err::<(), BikeError>(BikeError::NotAvailable), s),
{
}

/// After a use begins for account `a`, the bike records `a` as its holder
/// and is no longer available, and a return attempted by any other account
/// `b` fails with `Unauthorized` and leaves the bike in use by `a`.
pub proof fn lemma_use_then_wrong_return(s: Seq<BikeState>, i: int, a: Seq<char>, b: Seq<char>)
    requires
        0 <= i < s.len(),
        s[i] is Available,
        a != b,
    ensures
        ({
            let s1 = use_bike_spec(s, i, a).1;
            &&& use_bike_spec(s, i, a).0 == Ok::<(), BikeError>(())
            &&& s1[i] == BikeState::InUse(a)
            &&& !(s1[i] is Available)
            &&& return_bike_spec(s1, i, b) == (
                Err::<Option<Seq<char>>, BikeError>(BikeError::Unauthorized),
                s1,
            )
        }),
{
}

/// Returning a bike one uses is synchronous: after a use by `a`, a return by
/// `a` succeeds, starts no settlement, and makes the bike available again,
/// with every other bike unchanged.
pub proof fn lemma_use_then_return(s: Seq<BikeState>, i: int, a: Seq<char>)
    requires
        0 <= i < s.len(),
        s[i] is Available,
    ensures
        ({
            let s1 = use_bike_spec(s, i, a).1;
            &&& return_bike_spec(s1, i, a).0 == Ok::<Option<Seq<char>>, BikeError>(None)
            &&& return_bike_spec(s1, i, a).1 == s.update(i, BikeState::Available)
        }),
{
    let s1 = use_bike_spec(s, i, a).1;
    assert(return_bike_spec(s1, i, a).1 =~= s.update(i, BikeState::Available));
}

/// Returning a bike one inspects is not synchronous: after an inspection by
/// `a`, a return by `a` succeeds, starts exactly one settlement addressed to
/// `a`, and leaves the bike in `Inspection(a)` until that settlement
/// resolves.
pub proof fn lemma_inspect_then_return(s: Seq<BikeState>, i: int, a: Seq<char>)
    requires
        0 <= i < s.len(),
        s[i] is Available,
    ensures
        ({
            let s1 = inspect_bike_spec(s, i, a).1;
            &&& s1[i] == BikeState::Inspection(a)
            &&& return_bike_spec(s1, i, a) == (
                Ok::<Option<Seq<char>>, BikeError>(Some(a)),
                s1,
            )
        }),
{
}

/// Settlement resolution: from `Inspection(a)`, a successful transfer
/// releases the bike back to `Available`; a failed transfer reports
/// `ExternalTransferFailed` and leaves the bike in `Inspection(a)`
/// indefinitely.
pub proof fn lemma_settlement_resolution(s: Seq<BikeState>, i: int, a: Seq<char>)
    requires
        0 <= i < s.len(),
        s[i] == BikeState::Inspection(a),
    ensures
        callback_return_bike_spec(s, i, true) == (
            Ok::<(), BikeError>(()),
            s.update(i, BikeState::Available),
        ),
        callback_return_bike_spec(s, i, false) == (
            Err::<(), BikeError>(BikeError::ExternalTransferFailed),
            s,
        ),
{
}

} // verus!
