//! The auction registry: every auction ever created, keyed by an id that is
//! handed out in ascending order and never reused.

use vstd::prelude::*;
use crate::error::ContractError;
use crate::msg::AuctionResponse;
use crate::state::{Auction, AuctionStatus, AuctionView};

verus! {

/// Page size when a listing names none.
pub const DEFAULT_PAGE_LIMIT: u32 = 50;

/// Largest page a listing returns, whatever the caller asks for.
pub const MAX_PAGE_LIMIT: u32 = 100;

/// The auctions in order of creation. The auction at position `i` has the id
/// `first_id + i`.
#[derive(Clone, Debug, PartialEq, Eq)]
pub struct AuctionRegistry {
    pub first_id: u64,
    pub auctions: Vec<Auction>,
}

/// The registry as a value: the first id and the auctions in order.
pub struct RegistryView {
    pub first_id: u64,
    pub auctions: Seq<AuctionView>,
}

impl View for AuctionRegistry {
    type V = RegistryView;

    open spec fn view(&self) -> RegistryView {
        RegistryView {
            first_id: self.first_id,
            auctions: self.auctions@.map_values(|a: Auction| a@),
        }
    }
}

/// The page size in force for a requested `limit`.
pub open spec fn page_limit(limit: Option<u32>) -> nat {
    let asked = match limit {
        Some(n) => n,
        None => DEFAULT_PAGE_LIMIT,
    };
    if asked <= MAX_PAGE_LIMIT {
        asked as nat
    } else {
        MAX_PAGE_LIMIT as nat
    }
}

/// Whether a listing that starts after `start_after` and keeps `status` only
/// (every status, if `None`) selects the entry `e`.
pub open spec fn selected(
    e: (u64, AuctionView),
    start_after: Option<u64>,
    status: Option<AuctionStatus>,
) -> bool {
    &&& start_after matches Some(c) ==> e.0 > c
    &&& status matches Some(s) ==> e.1.status == s
}

/// `selected` as a predicate on entries.
pub open spec fn selector(start_after: Option<u64>, status: Option<AuctionStatus>) -> spec_fn(
    (u64, AuctionView),
) -> bool {
    |e: (u64, AuctionView)| selected(e, start_after, status)
}

impl RegistryView {
    /// The id that the next auction gets.
    pub open spec fn next_id(self) -> int {
        self.first_id + self.auctions.len()
    }

    /// Every id handed out fits in 64 bits, and every auction is well formed.
    pub open spec fn wf(self) -> bool {
        &&& self.next_id() <= u64::MAX
        &&& forall|i: int| 0 <= i < self.auctions.len() ==> (#[trigger] self.auctions[i]).wf()
    }

    /// Whether an auction is registered under `id`.
    pub open spec fn contains(self, id: u64) -> bool {
        self.first_id <= id < self.next_id()
    }

    /// The auction registered under `id`.
    pub open spec fn get(self, id: u64) -> AuctionView
        recommends
            self.contains(id),
    {
        self.auctions[id - self.first_id]
    }

    /// The registry with the auction under `id` replaced by `a`.
    pub open spec fn with_auction(self, id: u64, a: AuctionView) -> RegistryView
        recommends
            self.contains(id),
    {
        RegistryView { auctions: self.auctions.update(id - self.first_id, a), ..self }
    }

    /// The registry with `a` registered under the next id.
    pub open spec fn with_new(self, a: AuctionView) -> RegistryView {
        RegistryView { auctions: self.auctions.push(a), ..self }
    }

    /// All auctions with their ids, in ascending order of id.
    pub open spec fn entries(self) -> Seq<(u64, AuctionView)> {
        Seq::new(self.auctions.len(), |i: int| ((self.first_id + i) as u64, self.auctions[i]))
    }

    /// A page of a listing: of the auctions with an id above `start_after`
    /// (all, if `None`) and with the status `status` (any, if `None`), the
    /// first `page_limit(limit)` in ascending order of id. The status filter
    /// runs over the whole registry before the page is cut.
    pub open spec fn page(
        self,
        start_after: Option<u64>,
        limit: Option<u32>,
        status: Option<AuctionStatus>,
    ) -> Seq<(u64, AuctionView)> {
        let matching = self.entries().filter(selector(start_after, status));
        if matching.len() <= page_limit(limit) {
            matching
        } else {
            matching.take(page_limit(limit) as int)
        }
    }
}

/// The views of a run of listing entries.
pub open spec fn entries_view(s: Seq<AuctionResponse>) -> Seq<(u64, AuctionView)> {
    s.map_values(|r: AuctionResponse| r@)
}

/// The id that the next auction gets, or `None` when the ids are used up.
pub fn next_auction_id(registry: &AuctionRegistry) -> (r: Option<u64>)
    requires
        registry@.wf(),
    ensures
        match r {
            Some(id) => id == registry@.next_id() && id < u64::MAX,
            None => registry@.next_id() == u64::MAX,
        },
{
    let n = registry.auctions.len() as u64;
    if n < u64::MAX - registry.first_id {
        Some(registry.first_id + n)
    } else {
        None
    }
}

impl AuctionRegistry {
    /// An empty registry whose first auction will get the id `first_id`.
    pub fn new(first_id: u64) -> (r: AuctionRegistry)
        ensures
            r@.wf(),
            r@.first_id == first_id,
            r@.auctions.len() == 0,
    {
        AuctionRegistry { first_id, auctions: Vec::new() }
    }

    /// Checks the registry's invariant.
    pub fn is_well_formed(&self) -> (b: bool)
        ensures
            b == self@.wf(),
    {
        if self.auctions.len() as u64 > u64::MAX - self.first_id {
            return false;
        }
        let mut i: usize = 0;
        while i < self.auctions.len()
            invariant
                i <= self.auctions.len(),
                forall|k: int| 0 <= k < i ==> (#[trigger] self@.auctions[k]).wf(),
            decreases self.auctions.len() - i,
        {
            if !self.auctions[i].is_well_formed() {
                assert(!self@.auctions[i as int].wf());
                return false;
            }
            i = i + 1;
        }
        true
    }

    /// Registers `auction` under the next unused id and returns that id.
    /// Refused with `None`, and nothing changed, when the ids are used up.
    pub fn create(&mut self, auction: Auction) -> (r: Option<u64>)
        requires
            old(self)@.wf(),
            auction@.wf(),
        ensures
            final(self)@.wf(),
            match r {
                Some(id) => id == old(self)@.next_id() && id < u64::MAX && final(self)@ == old(
                    self,
                )@.with_new(auction@),
                None => old(self)@.next_id() == u64::MAX && final(self)@ == old(self)@,
            },
    {
        match next_auction_id(self) {
            Some(id) => {
                self.auctions.push(auction);
                assert(self@.auctions =~= old(self)@.auctions.push(auction@));
                Some(id)
            },
            None => None,
        }
    }

    /// The position of the auction registered under `id`.
    pub fn index_of(&self, id: u64) -> (r: Option<usize>)
        requires
            self@.wf(),
        ensures
            match r {
                Some(i) => self@.contains(id) && i == id - self@.first_id && i
                    < self.auctions@.len(),
                None => !self@.contains(id),
            },
    {
        if id < self.first_id {
            return None;
        }
        let offset = id - self.first_id;
        if offset < self.auctions.len() as u64 {
            Some(offset as usize)
        } else {
            None
        }
    }

    /// A copy of the auction registered under `id`.
    pub fn load(&self, id: u64) -> (r: Result<Auction, ContractError>)
        requires
            self@.wf(),
        ensures
            match r {
                Ok(a) => self@.contains(id) && a@ == self@.get(id),
                Err(e) => !self@.contains(id) && e == ContractError::AuctionNotFound,
            },
    {
        match self.index_of(id) {
            Some(i) => Ok(self.auctions[i].clone()),
            None => Err(ContractError::AuctionNotFound),
        }
    }

    /// Overwrites the auction registered under `id` with `auction`.
    pub fn save(&mut self, id: u64, auction: Auction) -> (r: Result<(), ContractError>)
        requires
            old(self)@.wf(),
            auction@.wf(),
        ensures
            final(self)@.wf(),
            match r {
                Ok(_) => old(self)@.contains(id) && final(self)@ == old(self)@.with_auction(
                    id,
                    auction@,
                ),
                Err(e) => !old(self)@.contains(id) && e == ContractError::AuctionNotFound
                    && final(self)@ == old(self)@,
            },
    {
        match self.index_of(id) {
            Some(i) => {
                self.auctions.set(i, auction);
                assert(self@.auctions =~= old(self)@.auctions.update(i as int, auction@));
                Ok(())
            },
            None => Err(ContractError::AuctionNotFound),
        }
    }

    /// One page of the auctions after `start_after` that have the status
    /// `status`, oldest first.
    pub fn list(
        &self,
        start_after: Option<u64>,
        limit: Option<u32>,
        status: Option<AuctionStatus>,
    ) -> (r: Vec<AuctionResponse>)
        requires
            self@.wf(),
        ensures
            entries_view(r@) == self@.page(start_after, limit, status),
    {
        let asked = match limit {
            Some(n) => n,
            None => DEFAULT_PAGE_LIMIT,
        };
        let cap: usize = if asked <= MAX_PAGE_LIMIT {
            asked as usize
        } else {
            MAX_PAGE_LIMIT as usize
        };
        let ghost pred = selector(start_after, status);
        let ghost entries = self@.entries();
        let mut out: Vec<AuctionResponse> = Vec::new();
        let n = self.auctions.len();
        let mut i: usize = match start_after {
            Some(c) => match self.index_of(c) {
                Some(k) => k + 1,
                None => if c < self.first_id {
                    0
                } else {
                    n
                },
            },
            None => 0,
        };
        proof {
            let skipped = entries.take(i as int);
            assert(skipped.all(|e: (u64, AuctionView)| !pred(e))) by {
                assert forall|k: int| 0 <= k < skipped.len() implies !pred(
                    #[trigger] skipped[k],
                ) by {
                    assert(skipped[k] == entries[k]);
                }
            }
            skipped.lemma_all_neg_filter_empty(pred);
            assert(skipped.filter(pred) =~= entries_view(out@));
        }
        while i < self.auctions.len() && out.len() < cap
            invariant
                self@.wf(),
                i <= self.auctions.len(),
                out.len() <= cap,
                cap == page_limit(limit),
                pred == selector(start_after, status),
                entries == self@.entries(),
                entries_view(out@) == entries.take(i as int).filter(pred),
            decreases self.auctions.len() - i,
        {
            let id = self.first_id + i as u64;
            let auction = &self.auctions[i];
            let after = match start_after {
                Some(c) => id > c,
                None => true,
            };
            let wanted = match status {
                Some(s) => auction.status == s,
                None => true,
            };
            proof {
                assert(entries.take(i + 1) =~= entries.take(i as int).push(entries[i as int]));
                entries.take(i as int).lemma_filter_push(entries[i as int], pred);
                assert(entries[i as int] == (id, auction@));
                assert(pred(entries[i as int]) == (after && wanted));
            }
            if after && wanted {
                let ghost before = out@;
                out.push(AuctionResponse { id, auction: auction.clone() });
                assert(entries_view(out@) =~= entries_view(before).push(entries[i as int]));
            }
            i = i + 1;
        }
        proof {
            let head = entries.take(i as int);
            let tail = entries.skip(i as int);
            assert(entries =~= head + tail);
            Seq::filter_distributes_over_add(head, tail, pred);
            let matching = entries.filter(pred);
            assert(matching == head.filter(pred) + tail.filter(pred));
            if i == self.auctions.len() {
                assert(tail =~= Seq::empty());
                assert(tail.filter(pred) =~= Seq::empty());
                assert(matching =~= head.filter(pred));
            } else {
                assert(head.filter(pred).len() == cap);
                assert(matching.take(cap as int) =~= head.filter(pred));
            }
        }
        out
    }
}

} // verus!
