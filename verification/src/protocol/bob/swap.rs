//! One swap on the taker's side, driven step by step: each state the swap
//! comes to is put into the store before anything else is looked at, so that
//! a restarted process goes on from the state that was reached.

use crate::database::bob::Bob;
use crate::database::store::{Database, StoreError};
use crate::protocol::bob::{BobState, Environment, Observation, Outcome};
use crate::protocol::{BeginError, State3};
use vstd::prelude::*;

verus! {

/// Begins the record of the taker's side of the swap that setup gave the
/// parameters `state3`: the swap stands in `ExecutionSetupDone`, and its
/// first record goes into the store under the swap's id.
pub fn begin(db: &mut Database, state3: State3) -> (r: Result<BobState, BeginError>)
    ensures
        match r {
            Ok(state) => state3@.timelocks_ordered() && !old(db)@.contains_key(state3.swap_id)
                && state == (BobState::ExecutionSetupDone { state3: Box::new(state3) })
                && final(db)@ == old(db)@.insert(state3.swap_id, Bob::record_of(&state)@.encoding())
                && final(db).ids() == old(db).ids().push(state3.swap_id),
            Err(BeginError::TimelocksOutOfOrder) => !state3@.timelocks_ordered() && *final(db)
                == *old(db),
            Err(BeginError::AlreadyExists) => state3@.timelocks_ordered() && old(db)@.contains_key(
                state3.swap_id,
            ) && *final(db) == *old(db),
        },
{
    let id = state3.swap_id;
    if !state3.timelocks_ordered() {
        return Err(BeginError::TimelocksOutOfOrder);
    }
    let state = BobState::ExecutionSetupDone { state3: Box::new(state3) };
    let record = Bob::from(&state);
    match db.insert(id, &record) {
        Ok(_) => Ok(state),
        Err(_) => Err(BeginError::AlreadyExists),
    }
}

/// Takes a swap up again from its record in the store: `NotFound` where the
/// store has no record of the swap, `Corrupt` where the record cannot be
/// read.
pub fn resume(db: &Database, id: u128) -> (r: Result<BobState, StoreError>)
    ensures
        match r {
            Ok(state) => db@.contains_key(id) && crate::database::bob::decoding(db@[id]) == Ok::<
                crate::database::bob::BobView,
                crate::database::encoding::DecodeError,
            >(Bob::record_of(&state)@),
            Err(StoreError::NotFound) => !db@.contains_key(id),
            Err(StoreError::Corrupt(e)) => db@.contains_key(id) && crate::database::bob::decoding(
                db@[id],
            ) == Err::<crate::database::bob::BobView, crate::database::encoding::DecodeError>(e),
            Err(StoreError::AlreadyExists) => false,
        },
{
    match db.get::<Bob>(id) {
        Ok(record) => {
            proof {
                crate::database::bob::lemma_load_then_store(record);
            }
            Ok(BobState::from(record))
        },
        Err(e) => Err(e),
    }
}

/// Hands an observation to a swap and puts the state that follows into the
/// store. Where the state does not wait for the observation, the state comes
/// back as it was and the store is left alone. Where the store does not take
/// the new record, the swap has not advanced: the store still holds the
/// record of the state before, and the answer is the store's error.
pub fn advance(
    db: &mut Database,
    id: u128,
    state: BobState,
    observation: Observation,
    env: Environment,
) -> (r: Result<BobState, StoreError>)
    ensures
        match state.transition(observation, env) {
            None => r == Ok::<BobState, StoreError>(state) && *final(db) == *old(db),
            Some(next) => if old(db)@.contains_key(id) {
                r == Ok::<BobState, StoreError>(next) && final(db)@ == old(db)@.insert(
                    id,
                    Bob::record_of(&next)@.encoding(),
                ) && final(db).ids() == old(db).ids()
            } else {
                r == Err::<BobState, StoreError>(StoreError::NotFound) && *final(db) == *old(db)
            },
        },
{
    match state.step(observation, env) {
        Outcome::Ignored(state) => Ok(state),
        Outcome::Advanced(next) => {
            let record = Bob::from(&next);
            match db.update(id, &record) {
                Ok(_) => Ok(next),
                Err(e) => Err(e),
            }
        },
    }
}

} // verus!
