use vstd::prelude::*;
use crate::error::EscrowError;

verus! {

/// A read-only source of the observed floor price of a collection.
///
/// An implementation may reach a remote authority, and may fail. The engine
/// treats every failure alike. Each implementation says for itself, in
/// `can_reply`, which replies it can give; one that says nothing admits every
/// reply and so promises nothing.
pub trait TensorOracle {
    /// Whether this oracle, asked for `collection_id`, can give `reply`.
    open spec fn can_reply(&self, collection_id: Seq<char>, reply: Result<u64, EscrowError>) -> bool {
        true
    }

    /// The best-known current floor price of `collection_id`, or an error when
    /// none can be had.
    fn get_floor_price(&self, collection_id: &str) -> (reply: Result<u64, EscrowError>)
        ensures
            self.can_reply(collection_id@, reply),
    ;
}

/// An oracle that gives the same reply for every collection: a fixed price,
/// or unavailability when it holds none.
#[derive(Clone, Copy, Debug, PartialEq, Eq)]
pub struct FixedOracle {
    pub price: Option<u64>,
}

impl FixedOracle {
    /// What this oracle replies, whatever it is asked.
    pub open spec fn reply(self) -> Result<u64, EscrowError> {
        match self.price {
            Some(price) => Ok(price),
            None => Err(EscrowError::OracleUnavailable),
        }
    }

    /// An oracle that always reports `price`.
    pub fn reporting(price: u64) -> (oracle: FixedOracle)
        ensures
            oracle.price == Some(price),
    {
        FixedOracle { price: Some(price) }
    }

    /// An oracle that never has a price.
    pub fn unavailable() -> (oracle: FixedOracle)
        ensures
            oracle.price is None,
    {
        FixedOracle { price: None }
    }
}

impl TensorOracle for FixedOracle {
    open spec fn can_reply(&self, collection_id: Seq<char>, reply: Result<u64, EscrowError>) -> bool {
        reply == self.reply()
    }

    fn get_floor_price(&self, collection_id: &str) -> (reply: Result<u64, EscrowError>) {
        match self.price {
            Some(price) => Ok(price),
            None => Err(EscrowError::OracleUnavailable),
        }
    }
}

} // verus!
