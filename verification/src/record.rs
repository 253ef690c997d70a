use vstd::prelude::*;
use crate::instructions::Literal;

verus! {

/// A record of an account: the address that owns it, its balance, and its data.
#[derive(Clone, Debug, PartialEq, Eq)]
pub struct Record {
    pub owner: [u8; 32],
    pub value: i64,
    pub data: Vec<Literal>,
}

impl Record {
    /// Returns the record owner.
    pub fn owner(&self) -> (r: &[u8; 32])
        ensures
            *r == self.owner,
    {
        &self.owner
    }

    /// Returns the record balance.
    pub fn balance(&self) -> (r: &i64)
        ensures
            *r == self.value,
    {
        &self.value
    }

    /// Returns the record data.
    pub fn data(&self) -> (r: &Vec<Literal>)
        ensures
            r == &self.data,
    {
        &self.data
    }
}

} // verus!
