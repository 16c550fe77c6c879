//! What the contract keeps between calls.

use vstd::prelude::*;
use vstd::string::*;
use crate::error::{StdError, StdErrorView};

verus! {

/// The contract's one record: the address of its owner.
#[derive(Clone, Debug, PartialEq)]
pub struct State {
    pub owner: String,
}

/// The name and version of the code that a contract was made from.
#[derive(Clone, Debug, PartialEq)]
pub struct ContractVersion {
    pub contract: String,
    pub version: String,
}

impl View for ContractVersion {
    type V = (Seq<char>, Seq<char>);

    open spec fn view(&self) -> (Seq<char>, Seq<char>) {
        (self.contract@, self.version@)
    }
}

/// The contract's store: each record is there or not.
#[derive(Clone, Debug, PartialEq)]
pub struct Storage {
    pub state: Option<State>,
    pub contract_info: Option<ContractVersion>,
}

/// The kind that the error for a missing [`State`] names.
pub const STATE_KIND: &'static str = "umee_cosmwasm::state::State";

impl Storage {
    /// The store of a contract that was never instantiated: no record.
    pub fn new() -> (store: Storage)
        ensures
            store.state.is_none(),
            store.contract_info.is_none(),
    {
        Storage { state: None, contract_info: None }
    }

    /// The state in the store, or the error that it is not found.
    pub fn load(&self) -> (res: Result<State, StdError>)
        ensures
            match self.state {
                Some(state) => res == Ok::<State, StdError>(state),
                None => res.is_err() && res->Err_0@ == (StdErrorView::NotFound {
                    kind: STATE_KIND@,
                }),
            },
    {
        match &self.state {
            Some(state) => Ok(State { owner: state.owner.clone() }),
            None => Err(StdError::not_found(String::from_str(STATE_KIND))),
        }
    }

    /// Puts `state` in the store, in place of the state that was there.
    pub fn save(&mut self, state: State)
        ensures
            final(self).state == Some(state),
            final(self).contract_info == old(self).contract_info,
    {
        self.state = Some(state);
    }

    /// Records the name and version of the contract's code.
    pub fn set_contract_version(&mut self, contract: String, version: String)
        ensures
            final(self).state == old(self).state,
            final(self).contract_info.is_some(),
            final(self).contract_info->Some_0@ == (contract@, version@),
    {
        self.contract_info = Some(ContractVersion { contract, version });
    }
}

} // verus!
