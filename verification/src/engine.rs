//! The engine's state as one value, and what every command is given besides
//! its own arguments: the clock and the sender with the funds sent along.

use vstd::prelude::*;
use crate::error::ContractError;
use crate::kyc::{KycRegistry, KycRegistryView};
use crate::registry::{AuctionRegistry, RegistryView};
use crate::response::{Coin, Response, ResponseView};
use crate::state::{AuctionStatus, AuctionView, Config, ConfigView};

verus! {

/// The verification level that bidding, buying and listing ask for when the
/// access gate is on.
pub const REQUIRED_KYC_LEVEL: u8 = 1;

/// The trusted clock: the time of the block the command runs in, in seconds.
#[derive(Clone, Copy, Debug, PartialEq, Eq)]
pub struct Env {
    pub time: u64,
}

/// Who sent the command, and the funds that came with it.
#[derive(Clone, Debug, PartialEq, Eq)]
pub struct MessageInfo {
    pub sender: String,
    pub funds: Vec<Coin>,
}

/// Everything the engine persists.
#[derive(Clone, Debug, PartialEq, Eq)]
pub struct State {
    pub config: Config,
    pub registry: AuctionRegistry,
    pub kyc: KycRegistry,
}

/// The state as a value.
pub struct StateView {
    pub config: ConfigView,
    pub registry: RegistryView,
    pub kyc: KycRegistryView,
}

impl View for State {
    type V = StateView;

    open spec fn view(&self) -> StateView {
        StateView { config: self.config@, registry: self.registry@, kyc: self.kyc@ }
    }
}

/// A state after a command, and what the command handed back.
pub struct Outcome {
    pub state: StateView,
    pub result: Result<ResponseView, ContractError>,
}

/// The view of a command's result.
pub open spec fn result_view(r: Result<Response, ContractError>) -> Result<
    ResponseView,
    ContractError,
> {
    match r {
        Ok(resp) => Ok(resp@),
        Err(e) => Err(e),
    }
}

impl StateView {
    /// The fee rate is in range, the ids fit and every auction is well formed.
    pub open spec fn wf(self) -> bool {
        self.config.wf() && self.registry.wf()
    }

    /// What the access gate says to `address` at `now`: nothing while it
    /// is off, else the access check at the required level.
    pub open spec fn gate_refusal(self, address: Seq<char>, now: u64) -> Option<ContractError> {
        if self.config.require_kyc {
            self.kyc.refusal(address, REQUIRED_KYC_LEVEL, now)
        } else {
            None
        }
    }

    /// The state with the auction under `id` replaced by `a`.
    pub open spec fn with_auction(self, id: u64, a: AuctionView) -> StateView {
        StateView { registry: self.registry.with_auction(id, a), ..self }
    }

    /// The checks that bidding and buying share, in order: the auction
    /// exists, is active, has not run out at `now`, and the access gate lets
    /// `actor` pass.
    pub open spec fn entry_refusal(self, id: u64, actor: Seq<char>, now: u64) -> Option<
        ContractError,
    > {
        if !self.registry.contains(id) {
            Some(ContractError::AuctionNotFound)
        } else if self.registry.get(id).status != AuctionStatus::Active {
            Some(ContractError::AuctionNotActive)
        } else if now > self.registry.get(id).end_time {
            Some(ContractError::AuctionEnded)
        } else {
            self.gate_refusal(actor, now)
        }
    }

    /// The state that a refused bid or purchase leaves behind. Finding the
    /// auction run out marks it `Ended`; every other refusal changes nothing.
    pub open spec fn after_refusal(self, id: u64, e: ContractError) -> StateView {
        if e == ContractError::AuctionEnded {
            self.with_auction(id, self.registry.get(id).with_status(AuctionStatus::Ended))
        } else {
            self
        }
    }
}

impl State {
    /// The state's invariant: that of its view, and one record per address.
    pub open spec fn wf(&self) -> bool {
        self@.wf() && self.kyc.wf()
    }

    /// Checks the state's invariant. A state put together from stored parts
    /// must pass before any command or query runs on it.
    pub fn is_well_formed(&self) -> (b: bool)
        ensures
            b == self.wf(),
    {
        self.config.is_well_formed() && self.registry.is_well_formed()
            && self.kyc.is_well_formed()
    }

    /// Consults the access gate for `address`, if it is on.
    pub fn check_gate(&self, address: &String, now: u64) -> (r: Result<(), ContractError>)
        requires
            self.wf(),
        ensures
            match r {
                Ok(_) => self@.gate_refusal(address@, now) is None,
                Err(e) => self@.gate_refusal(address@, now) == Some(e),
            },
    {
        if self.config.require_kyc {
            self.kyc.authorize(address, REQUIRED_KYC_LEVEL, now)
        } else {
            Ok(())
        }
    }
}

} // verus!
