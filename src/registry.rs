use vstd::prelude::*;

use crate::pubkey::Pubkey;
use crate::state::{ClaimRecord, ErrorCode};

verus! {

/// The claim records of every asset claimed so far, in the order of their claims.
/// No two records name the same asset.
pub struct ClaimRegistry {
    records: Vec<ClaimRecord>,
}

/// Whether some record of `records` names the asset `orb_mint`.
pub open spec fn claims_asset(records: Seq<ClaimRecord>, orb_mint: Seq<u8>) -> bool {
    exists|i: int| 0 <= i < records.len() && records[i].orb_mint@ == orb_mint
}

/// No two records of `records` name the same asset.
pub open spec fn assets_unique(records: Seq<ClaimRecord>) -> bool {
    forall|i: int, j: int|
        0 <= i < records.len() && 0 <= j < records.len() && records[i].orb_mint@
            == records[j].orb_mint@ ==> i == j
}

impl ClaimRegistry {
    pub closed spec fn view(&self) -> Seq<ClaimRecord> {
        self.records@
    }

    pub open spec fn wf(&self) -> bool {
        assets_unique(self@)
    }

    /// An empty registry.
    pub fn new() -> (r: ClaimRegistry)
        ensures
            r@ == Seq::<ClaimRecord>::empty(),
            r.wf(),
    {
        ClaimRegistry { records: Vec::new() }
    }

    /// How many assets have been claimed.
    pub fn len(&self) -> (r: usize)
        ensures
            r == self@.len(),
    {
        self.records.len()
    }

    /// The `i`-th record, in the order of the claims.
    pub fn get(&self, i: usize) -> (r: Option<ClaimRecord>)
        ensures
            i < self@.len() ==> r == Some(self@[i as int]),
            i >= self@.len() ==> r is None,
    {
        if i < self.records.len() {
            Some(self.records[i])
        } else {
            None
        }
    }

    /// The position of the record of `orb_mint`, if that asset has been claimed.
    pub fn position(&self, orb_mint: &Pubkey) -> (r: Option<usize>)
        ensures
            match r {
                Some(i) => i < self@.len() && self@[i as int].orb_mint@ == orb_mint@,
                None => !claims_asset(self@, orb_mint@),
            },
    {
        let mut i: usize = 0;
        while i < self.records.len()
            invariant
                0 <= i <= self.records@.len(),
                forall|k: int| 0 <= k < i ==> self.records@[k].orb_mint@ != orb_mint@,
            decreases self.records@.len() - i,
        {
            if self.records[i].orb_mint.same(orb_mint) {
                return Some(i);
            }
            i = i + 1;
        }
        None
    }

    /// Whether `orb_mint` has been claimed.
    pub fn is_claimed(&self, orb_mint: &Pubkey) -> (r: bool)
        ensures
            r == claims_asset(self@, orb_mint@),
    {
        self.position(orb_mint).is_some()
    }

    /// The record of `orb_mint`, if that asset has been claimed.
    pub fn find(&self, orb_mint: &Pubkey) -> (r: Option<ClaimRecord>)
        requires
            self.wf(),
        ensures
            match r {
                Some(c) => c.orb_mint@ == orb_mint@ && self@.contains(c),
                None => !claims_asset(self@, orb_mint@),
            },
    {
        match self.position(orb_mint) {
            Some(i) => Some(self.records[i]),
            None => None,
        }
    }

    /// Adds `record` unless its asset has been claimed before, in which case
    /// nothing changes and `AlreadyClaimed` is returned.
    pub fn record_claim(&mut self, record: ClaimRecord) -> (r: Result<(), ErrorCode>)
        requires
            old(self).wf(),
        ensures
            final(self).wf(),
            claims_asset(old(self)@, record.orb_mint@) ==> r == Err::<(), ErrorCode>(
                ErrorCode::AlreadyClaimed,
            ) && final(self)@ == old(self)@,
            !claims_asset(old(self)@, record.orb_mint@) ==> r is Ok && final(self)@ == old(
                self,
            )@.push(record),
    {
        if self.is_claimed(&record.orb_mint) {
            return Err(ErrorCode::AlreadyClaimed);
        }
        self.records.push(record);
        proof {
            let s = self.records@;
            assert forall|i: int, j: int|
                0 <= i < s.len() && 0 <= j < s.len() && s[i].orb_mint@ == s[j].orb_mint@ implies i
                == j by {
                if i < s.len() - 1 && j == s.len() - 1 {
                    assert(old(self)@[i].orb_mint@ == record.orb_mint@);
                }
                if j < s.len() - 1 && i == s.len() - 1 {
                    assert(old(self)@[j].orb_mint@ == record.orb_mint@);
                }
            }
        }
        Ok(())
    }
}

} // verus!
