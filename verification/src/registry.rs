//! The bike registry: the authoritative collection of bike states, and every
//! operation that may mutate it.  Each operation's contract equates its
//! result and the registry's new view with one transition function of
//! [`crate::state`], so the registry is exactly the state machine described
//! there.

use vstd::prelude::*;

use crate::settlement::{SettlementAction, SettlementConfig, SettlementResult, action_matches};
use crate::state::{
    BikeError, BikeState, all_available, callback_return_bike_spec, inspect_bike_spec,
    return_bike_spec, use_bike_spec,
};

verus! {

/// One rentable bike and, when occupied, the account id holding it.
pub enum Bike {
    Available,
    InUse(String),
    Inspection(String),
}

impl View for Bike {
    type V = BikeState;

    open spec fn view(&self) -> BikeState {
        match self {
            Bike::Available => BikeState::Available,
            Bike::InUse(holder) => BikeState::InUse(holder@),
            Bike::Inspection(inspector) => BikeState::Inspection(inspector@),
        }
    }
}

/// The registry of bikes.  Its view is the sequence of abstract bike states,
/// and its whole persisted state is this one collection.
pub struct Contract {
    bikes: Vec<Bike>,
}

impl View for Contract {
    type V = Seq<BikeState>;

    closed spec fn view(&self) -> Seq<BikeState> {
        self.bikes@.map_values(|b: Bike| b@)
    }
}

impl Contract {
    /// Creates `num_of_bikes` bikes, all `Available`.  A count of zero is
    /// legal and yields an empty registry.
    pub fn new(num_of_bikes: usize) -> (contract: Self)
        ensures
            contract@ == all_available(num_of_bikes as nat),
    {
        let mut bikes: Vec<Bike> = Vec::new();
        let mut i: usize = 0;
        while i < num_of_bikes
            invariant
                i <= num_of_bikes,
                bikes@.len() == i,
                forall|j: int| 0 <= j < i ==> bikes@[j] == Bike::Available,
            decreases num_of_bikes - i,
        {
            bikes.push(Bike::Available);
            i = i + 1;
        }
        let contract = Contract { bikes };
        proof {
            assert(contract@ =~= all_available(num_of_bikes as nat));
        }
        contract
    }

    /// Rebuilds a registry from an explicit collection of bike states, e.g.
    /// one the host environment restored from storage.
    pub fn from_states(bikes: Vec<Bike>) -> (contract: Self)
        ensures
            contract@ == bikes@.map_values(|b: Bike| b@),
    {
        Contract { bikes }
    }

    /// The bike states, for the host environment to persist.
    pub fn states(&self) -> (bikes: &Vec<Bike>)
        ensures
            bikes@.map_values(|b: Bike| b@) == self@,
    {
        &self.bikes
    }

    /// The number of bikes in the registry.
    pub fn num_of_bikes(&self) -> (n: usize)
        ensures
            n == self@.len(),
    {
        self.bikes.len()
    }

    /// Whether the bike at `index` is available.
    pub fn is_available(&self, index: usize) -> (r: Result<bool, BikeError>)
        ensures
            index < self@.len() ==> r == Ok::<bool, BikeError>(self@[index as int] is Available),
            index >= self@.len() ==> r == Err::<bool, BikeError>(BikeError::IndexOutOfRange),
    {
        if index >= self.bikes.len() {
            return Err(BikeError::IndexOutOfRange);
        }
        match &self.bikes[index] {
            Bike::Available => Ok(true),
            _ => Ok(false),
        }
    }

    /// The account using the bike at `index`, if it is in use.
    pub fn who_is_using(&self, index: usize) -> (r: Result<Option<String>, BikeError>)
        ensures
            index >= self@.len() ==> r == Err::<Option<String>, BikeError>(
                BikeError::IndexOutOfRange,
            ),
            index < self@.len() ==> (match self@[index as int] {
                BikeState::InUse(holder) => r matches Ok(account) && account matches Some(account)
                    && account@ == holder,
                _ => r == Ok::<Option<String>, BikeError>(None),
            }),
    {
        if index >= self.bikes.len() {
            return Err(BikeError::IndexOutOfRange);
        }
        match &self.bikes[index] {
            Bike::InUse(holder) => Ok(Some(holder.clone())),
            _ => Ok(None),
        }
    }

    /// The account inspecting the bike at `index`, if it is under inspection.
    pub fn who_is_inspecting(&self, index: usize) -> (r: Result<Option<String>, BikeError>)
        ensures
            index >= self@.len() ==> r == Err::<Option<String>, BikeError>(
                BikeError::IndexOutOfRange,
            ),
            index < self@.len() ==> (match self@[index as int] {
                BikeState::Inspection(inspector) => r matches Ok(account) && account matches Some(
                    account,
                ) && account@ == inspector,
                _ => r == Ok::<Option<String>, BikeError>(None),
            }),
    {
        if index >= self.bikes.len() {
            return Err(BikeError::IndexOutOfRange);
        }
        match &self.bikes[index] {
            Bike::Inspection(inspector) => Ok(Some(inspector.clone())),
            _ => Ok(None),
        }
    }

    /// `Available -> InUse(user_id)`; any other state is refused and left
    /// unchanged.
    pub fn use_bike(&mut self, index: usize, user_id: String) -> (r: Result<(), BikeError>)
        ensures
            (r, final(self)@) == use_bike_spec(old(self)@, index as int, user_id@),
    {
        if index >= self.bikes.len() {
            return Err(BikeError::IndexOutOfRange);
        }
        let ghost prev = self@;
        let ghost uid = user_id@;
        match &self.bikes[index] {
            Bike::Available => {
                self.bikes[index] = Bike::InUse(user_id);
                proof {
                    assert(self@ =~= prev.update(index as int, BikeState::InUse(uid)));
                }
                Ok(())
            },
            _ => Err(BikeError::NotAvailable),
        }
    }

    /// `Available -> Inspection(user_id)`; any other state is refused and
    /// left unchanged.
    pub fn inspect_bike(&mut self, index: usize, user_id: String) -> (r: Result<(), BikeError>)
        ensures
            (r, final(self)@) == inspect_bike_spec(old(self)@, index as int, user_id@),
    {
        if index >= self.bikes.len() {
            return Err(BikeError::IndexOutOfRange);
        }
        let ghost prev = self@;
        let ghost uid = user_id@;
        match &self.bikes[index] {
            Bike::Available => {
                self.bikes[index] = Bike::Inspection(user_id);
                proof {
                    assert(self@ =~= prev.update(index as int, BikeState::Inspection(uid)));
                }
                Ok(())
            },
            _ => Err(BikeError::NotAvailable),
        }
    }

    /// Returns the bike at `index`.  A bike in use by `user_id` is released
    /// synchronously (`Ok(None)`).  A bike inspected by `user_id` stays in
    /// `Inspection` and the returned [`SettlementAction`] tells the host
    /// which reward transfer to issue; the bike is released only by the
    /// settlement callback.
    pub fn return_bike(&mut self, index: usize, user_id: String, config: &SettlementConfig) -> (r:
        Result<Option<SettlementAction>, BikeError>)
        ensures
            final(self)@ == return_bike_spec(old(self)@, index as int, user_id@).1,
            (match return_bike_spec(old(self)@, index as int, user_id@).0 {
                Ok(started) => match started {
                    Some(receiver) => r matches Ok(action) && action matches Some(action)
                        && action_matches(action, *config, index as int, receiver),
                    None => r == Ok::<Option<SettlementAction>, BikeError>(None),
                },
                Err(e) => r == Err::<Option<SettlementAction>, BikeError>(e),
            }),
    {
        if index >= self.bikes.len() {
            return Err(BikeError::IndexOutOfRange);
        }
        let ghost prev = self@;
        match &self.bikes[index] {
            Bike::Available => Err(BikeError::AlreadyAvailable),
            Bike::InUse(holder) => {
                if *holder == user_id {
                    self.bikes[index] = Bike::Available;
                    proof {
                        assert(self@ =~= prev.update(index as int, BikeState::Available));
                    }
                    Ok(None)
                } else {
                    Err(BikeError::Unauthorized)
                }
            },
            Bike::Inspection(inspector) => {
                if *inspector == user_id {
                    let action = Self::return_inspected_bike(index, user_id, config);
                    Ok(Some(action))
                } else {
                    Err(BikeError::Unauthorized)
                }
            },
        }
    }

    /// Builds the settlement for one inspection return: a transfer of the
    /// configured reward, rendered in decimal, to `receiver_id`, and the
    /// continuation pointing back at bike `index`.
    pub fn return_inspected_bike(
        index: usize,
        receiver_id: String,
        config: &SettlementConfig,
    ) -> (action: SettlementAction)
        ensures
            action_matches(action, *config, index as int, receiver_id@),
    {
        let amount: String = crate::decimal::decimal_string_u128(config.reward_amount);
        SettlementAction {
            ft_contract_account: config.ft_contract_account.clone(),
            request: crate::settlement::TransferRequest { receiver_id, amount, memo: None },
            callback_index: index,
        }
    }

    /// The privileged settlement continuation.  Only the host's self-call
    /// path may reach it, and only after the reward transfer resolved, so a
    /// `NotReady` result is excluded here.  On success the bike is released;
    /// on failure it stays in `Inspection`.
    pub fn callback_return_bike(&mut self, index: usize, result: SettlementResult) -> (r: Result<
        (),
        BikeError,
    >)
        requires
            !(result is NotReady),
        ensures
            (r, final(self)@) == callback_return_bike_spec(
                old(self)@,
                index as int,
                result is Successful,
            ),
    {
        if index >= self.bikes.len() {
            return Err(BikeError::IndexOutOfRange);
        }
        let ghost prev = self@;
        match result {
            SettlementResult::Successful => {
                self.bikes[index] = Bike::Available;
                proof {
                    assert(self@ =~= prev.update(index as int, BikeState::Available));
                }
                Ok(())
            },
            _ => Err(BikeError::ExternalTransferFailed),
        }
    }
}

} // verus!
