//! The access gate: identity verification records and the blacklist.

use vstd::prelude::*;
use crate::engine::{Env, MessageInfo, Outcome, State, StateView, result_view};
use crate::error::ContractError;
use crate::response::{Response, ResponseView};
use crate::text::{decimal, u64_to_decimal};

verus! {

/// What the administrator recorded about one address.
#[derive(Debug, PartialEq, Eq)]
pub struct KycRecord {
    pub address: String,
    pub verified: bool,
    pub level: u8,
    pub verified_at: u64,
    pub verified_by: String,
    /// Last second at which the record still counts, if it expires at all.
    pub expires_at: Option<u64>,
}

/// A record as a value.
pub struct KycRecordView {
    pub address: Seq<char>,
    pub verified: bool,
    pub level: u8,
    pub verified_at: u64,
    pub verified_by: Seq<char>,
    pub expires_at: Option<u64>,
}

impl View for KycRecord {
    type V = KycRecordView;

    open spec fn view(&self) -> KycRecordView {
        KycRecordView {
            address: self.address@,
            verified: self.verified,
            level: self.level,
            verified_at: self.verified_at,
            verified_by: self.verified_by@,
            expires_at: self.expires_at,
        }
    }
}

impl Clone for KycRecord {
    fn clone(&self) -> (r: KycRecord)
        ensures
            r@ == self@,
    {
        KycRecord {
            address: self.address.clone(),
            verified: self.verified,
            level: self.level,
            verified_at: self.verified_at,
            verified_by: self.verified_by.clone(),
            expires_at: self.expires_at,
        }
    }
}

/// The verification records, at most one per address, and the blacklist.
#[derive(Clone, Debug, PartialEq, Eq)]
pub struct KycRegistry {
    pub records: Vec<KycRecord>,
    pub blacklist: Vec<String>,
}

/// The access gate as a table from address to record and a set of barred
/// addresses.
pub struct KycRegistryView {
    pub records: Map<Seq<char>, KycRecordView>,
    pub blacklist: Set<Seq<char>>,
}

/// Whether some record in `records` is about `address`.
pub open spec fn has_record(records: Seq<KycRecord>, address: Seq<char>) -> bool {
    exists|i: int| 0 <= i < records.len() && (#[trigger] records[i]).address@ == address
}

/// The place of a record about `address` in `records`.
pub open spec fn record_index(records: Seq<KycRecord>, address: Seq<char>) -> int {
    choose|i: int| 0 <= i < records.len() && (#[trigger] records[i]).address@ == address
}

/// Whether `address` occurs in `list`.
pub open spec fn listed(list: Seq<String>, address: Seq<char>) -> bool {
    exists|i: int| 0 <= i < list.len() && (#[trigger] list[i])@ == address
}

/// No two records are about the same address.
pub open spec fn distinct_addresses(records: Seq<KycRecord>) -> bool {
    forall|i: int, j: int|
        0 <= i < j < records.len() ==> (#[trigger] records[i]).address@ != (
        #[trigger] records[j]).address@
}

/// The table that `records` stands for: each address that has a record,
/// with that record.
pub open spec fn table(records: Seq<KycRecord>) -> Map<Seq<char>, KycRecordView> {
    Map::new(
        |a: Seq<char>| has_record(records, a),
        |a: Seq<char>| records[record_index(records, a)]@,
    )
}

/// The set of addresses that occur in `list`.
pub open spec fn barred(list: Seq<String>) -> Set<Seq<char>> {
    Set::new(|a: Seq<char>| listed(list, a))
}

impl View for KycRegistry {
    type V = KycRegistryView;

    open spec fn view(&self) -> KycRegistryView {
        KycRegistryView { records: table(self.records@), blacklist: barred(self.blacklist@) }
    }
}

/// Among records with distinct addresses, the record at `i` is the table's
/// entry for its address.
pub proof fn lemma_table_entry(records: Seq<KycRecord>, i: int)
    requires
        distinct_addresses(records),
        0 <= i < records.len(),
    ensures
        table(records).dom().contains(records[i].address@),
        table(records)[records[i].address@] == records[i]@,
{
    let a = records[i].address@;
    assert(has_record(records, a));
    let j = record_index(records, a);
    assert(0 <= j < records.len() && records[j].address@ == a);
    if j < i {
        assert(records[j].address@ != records[i].address@);
    } else if i < j {
        assert(records[i].address@ != records[j].address@);
    }
}

/// Putting `record` in the place of the record about the same address
/// updates the table's entry for that address.
pub proof fn lemma_table_replace(records: Seq<KycRecord>, i: int, record: KycRecord)
    requires
        distinct_addresses(records),
        0 <= i < records.len(),
        records[i].address@ == record.address@,
    ensures
        distinct_addresses(records.update(i, record)),
        table(records.update(i, record)) == table(records).insert(record.address@, record@),
{
    let after = records.update(i, record);
    let a = record.address@;
    assert forall|p: int, q: int| 0 <= p < q < after.len() implies (#[trigger] after[p]).address@
        != (#[trigger] after[q]).address@ by {
        assert(records[p].address@ != records[q].address@);
    }
    assert forall|b: Seq<char>| has_record(after, b) <==> (b == a || has_record(records, b)) by {
        if has_record(after, b) {
            let k = record_index(after, b);
            assert(records[k].address@ == b);
        }
        if has_record(records, b) {
            let k = record_index(records, b);
            assert(after[k].address@ == b);
        }
        if b == a {
            assert(after[i].address@ == b);
        }
    }
    assert forall|b: Seq<char>| has_record(after, b) implies #[trigger] table(after)[b] == table(
        records,
    ).insert(a, record@)[b] by {
        let k = record_index(after, b);
        lemma_table_entry(after, k);
        if b != a {
            assert(after[k] == records[k]);
            lemma_table_entry(records, k);
        } else {
            lemma_table_entry(after, i);
        }
    }
    assert(table(after) =~= table(records).insert(a, record@));
}

/// Appending a record about an address that has none adds the entry to the
/// table.
pub proof fn lemma_table_push(records: Seq<KycRecord>, record: KycRecord)
    requires
        distinct_addresses(records),
        !has_record(records, record.address@),
    ensures
        distinct_addresses(records.push(record)),
        table(records.push(record)) == table(records).insert(record.address@, record@),
{
    let after = records.push(record);
    let a = record.address@;
    let n = records.len() as int;
    assert forall|p: int, q: int| 0 <= p < q < after.len() implies (#[trigger] after[p]).address@
        != (#[trigger] after[q]).address@ by {
        if q == n {
            assert(records[p].address@ != a);
        } else {
            assert(records[p].address@ != records[q].address@);
        }
    }
    assert forall|b: Seq<char>| has_record(after, b) <==> (b == a || has_record(records, b)) by {
        if has_record(after, b) {
            let k = record_index(after, b);
            if k != n {
                assert(records[k].address@ == b);
            }
        }
        if has_record(records, b) {
            let k = record_index(records, b);
            assert(after[k].address@ == b);
        }
        if b == a {
            assert(after[n].address@ == b);
        }
    }
    assert forall|b: Seq<char>| has_record(after, b) implies #[trigger] table(after)[b] == table(
        records,
    ).insert(a, record@)[b] by {
        let k = record_index(after, b);
        lemma_table_entry(after, k);
        if b != a {
            assert(after[k] == records[k]);
            lemma_table_entry(records, k);
        } else {
            lemma_table_entry(after, n);
        }
    }
    assert(table(after) =~= table(records).insert(a, record@));
}

/// Taking the record at `i` out removes the entry for its address from the
/// table.
pub proof fn lemma_table_remove(records: Seq<KycRecord>, i: int)
    requires
        distinct_addresses(records),
        0 <= i < records.len(),
    ensures
        distinct_addresses(records.remove(i)),
        table(records.remove(i)) == table(records).remove(records[i].address@),
{
    let after = records.remove(i);
    let a = records[i].address@;
    assert forall|k: int| 0 <= k < after.len() implies #[trigger] after[k] == records[if k < i {
        k
    } else {
        k + 1
    }] by {}
    assert forall|p: int, q: int| 0 <= p < q < after.len() implies (#[trigger] after[p]).address@
        != (#[trigger] after[q]).address@ by {
        let p0 = if p < i { p } else { p + 1 };
        let q0 = if q < i { q } else { q + 1 };
        assert(records[p0].address@ != records[q0].address@);
    }
    assert forall|b: Seq<char>| has_record(after, b) <==> (b != a && has_record(records, b)) by {
        if has_record(after, b) {
            let k = record_index(after, b);
            let k0 = if k < i { k } else { k + 1 };
            assert(records[k0].address@ == b);
            if b == a {
                if k0 < i {
                    assert(records[k0].address@ != records[i].address@);
                } else {
                    assert(records[i].address@ != records[k0].address@);
                }
            }
        }
        if b != a && has_record(records, b) {
            let k0 = record_index(records, b);
            let k = if k0 < i { k0 } else { k0 - 1 };
            assert(after[k].address@ == b);
        }
    }
    assert forall|b: Seq<char>| has_record(after, b) implies #[trigger] table(after)[b] == table(
        records,
    ).remove(a)[b] by {
        let k = record_index(after, b);
        let k0 = if k < i { k } else { k + 1 };
        lemma_table_entry(after, k);
        lemma_table_entry(records, k0);
    }
    assert(table(after) =~= table(records).remove(a));
}

/// Appending an address to a list adds it to the set of barred addresses.
pub proof fn lemma_barred_push(list: Seq<String>, address: String)
    ensures
        barred(list.push(address)) == barred(list).insert(address@),
{
    let after = list.push(address);
    let a = address@;
    let n = list.len() as int;
    assert forall|b: Seq<char>| listed(after, b) <==> (b == a || listed(list, b)) by {
        if listed(after, b) {
            let k = choose|k: int| 0 <= k < after.len() && (#[trigger] after[k])@ == b;
            if k != n {
                assert(list[k]@ == b);
            }
        }
        if listed(list, b) {
            let k = choose|k: int| 0 <= k < list.len() && (#[trigger] list[k])@ == b;
            assert(after[k]@ == b);
        }
        if b == a {
            assert(after[n]@ == b);
        }
    }
    assert(barred(after) =~= barred(list).insert(a));
}

impl KycRegistryView {
    /// What a lookup of `address` at `now` reports. The checks run in this
    /// order: a barred address fails with `Blacklisted`; an address without
    /// a record fails with `KycRequired`; a record whose expiry time has
    /// passed fails with `KycExpired`; a record below `required_level` fails
    /// with `InsufficientKycLevel`. A record that gets this far answers with
    /// its `verified` flag, which is read last.
    pub open spec fn verified(self, address: Seq<char>, required_level: u8, now: u64) -> Result<
        bool,
        ContractError,
    > {
        if self.blacklist.contains(address) {
            Err(ContractError::Blacklisted)
        } else if !self.records.dom().contains(address) {
            Err(ContractError::KycRequired)
        } else if self.records[address].expires_at is Some && now
            > self.records[address].expires_at->0 {
            Err(ContractError::KycExpired)
        } else if self.records[address].level < required_level {
            Err(
                ContractError::InsufficientKycLevel {
                    required: required_level,
                    has: self.records[address].level,
                },
            )
        } else {
            Ok(self.records[address].verified)
        }
    }

    /// The access check: the lookup's error, if it gives one, and
    /// `KycRequired` for a record that passes every check of the lookup but
    /// is not marked verified. `None` lets the address pass.
    pub open spec fn refusal(self, address: Seq<char>, required_level: u8, now: u64) -> Option<
        ContractError,
    > {
        match self.verified(address, required_level, now) {
            Err(e) => Some(e),
            Ok(false) => Some(ContractError::KycRequired),
            Ok(true) => None,
        }
    }
}

impl KycRegistry {
    /// Every address has at most one record.
    pub open spec fn wf(&self) -> bool {
        distinct_addresses(self.records@)
    }

    /// Checks the registry's invariant.
    pub fn is_well_formed(&self) -> (b: bool)
        ensures
            b == self.wf(),
    {
        let n = self.records.len();
        let mut j: usize = 0;
        while j < n
            invariant
                n == self.records.len(),
                j <= n,
                forall|p: int, q: int|
                    0 <= p < q < j ==> (#[trigger] self.records@[p]).address@ != (
                    #[trigger] self.records@[q]).address@,
            decreases n - j,
        {
            let mut i: usize = 0;
            while i < j
                invariant
                    n == self.records.len(),
                    j < n,
                    i <= j,
                    forall|p: int|
                        0 <= p < i ==> (#[trigger] self.records@[p]).address@
                            != self.records@[j as int].address@,
                decreases j - i,
            {
                if self.records[i].address == self.records[j].address {
                    assert(self.records@[i as int].address@ == self.records@[j as int].address@);
                    return false;
                }
                i = i + 1;
            }
            j = j + 1;
        }
        true
    }

    /// An empty gate: nobody verified, nobody barred.
    pub fn new() -> (r: KycRegistry)
        ensures
            r.wf(),
            r@.records == Map::<Seq<char>, KycRecordView>::empty(),
            r@.blacklist == Set::<Seq<char>>::empty(),
    {
        let r = KycRegistry { records: Vec::new(), blacklist: Vec::new() };
        assert(r@.records =~= Map::<Seq<char>, KycRecordView>::empty());
        assert(r@.blacklist =~= Set::<Seq<char>>::empty());
        r
    }

    /// Finds the record about `address`.
    pub fn find_record(&self, address: &String) -> (r: Option<usize>)
        ensures
            match r {
                Some(i) => i < self.records@.len() && self.records@[i as int].address@
                    == address@,
                None => !has_record(self.records@, address@),
            },
    {
        let mut i: usize = 0;
        while i < self.records.len()
            invariant
                i <= self.records.len(),
                forall|k: int| 0 <= k < i ==> (#[trigger] self.records@[k]).address@ != address@,
            decreases self.records.len() - i,
        {
            if self.records[i].address == *address {
                return Some(i);
            }
            i = i + 1;
        }
        None
    }

    /// Whether `address` is barred.
    pub fn is_blacklisted(&self, address: &String) -> (b: bool)
        ensures
            b == self@.blacklist.contains(address@),
    {
        let mut i: usize = 0;
        while i < self.blacklist.len()
            invariant
                i <= self.blacklist.len(),
                forall|k: int| 0 <= k < i ==> (#[trigger] self.blacklist@[k])@ != address@,
            decreases self.blacklist.len() - i,
        {
            if self.blacklist[i] == *address {
                return true;
            }
            i = i + 1;
        }
        false
    }

    /// Looks `address` up at time `now`: the error of the first check that
    /// fails, else the record's `verified` flag.
    pub fn lookup(&self, address: &String, required_level: u8, now: u64) -> (r: Result<
        bool,
        ContractError,
    >)
        requires
            self.wf(),
        ensures
            r == self@.verified(address@, required_level, now),
    {
        if self.is_blacklisted(address) {
            return Err(ContractError::Blacklisted);
        }
        match self.find_record(address) {
            None => Err(ContractError::KycRequired),
            Some(i) => {
                proof {
                    lemma_table_entry(self.records@, i as int);
                }
                let record = &self.records[i];
                if let Some(expires_at) = record.expires_at {
                    if now > expires_at {
                        return Err(ContractError::KycExpired);
                    }
                }
                if record.level < required_level {
                    return Err(
                        ContractError::InsufficientKycLevel {
                            required: required_level,
                            has: record.level,
                        },
                    );
                }
                Ok(record.verified)
            },
        }
    }

    /// The access check for `address` at time `now`.
    pub fn authorize(&self, address: &String, required_level: u8, now: u64) -> (r: Result<
        (),
        ContractError,
    >)
        requires
            self.wf(),
        ensures
            match r {
                Ok(_) => self@.refusal(address@, required_level, now) is None,
                Err(e) => self@.refusal(address@, required_level, now) == Some(e),
            },
    {
        match self.lookup(address, required_level, now) {
            Ok(true) => Ok(()),
            Ok(false) => Err(ContractError::KycRequired),
            Err(e) => Err(e),
        }
    }

    /// Stores `record`, replacing any record about the same address.
    pub fn set_record(&mut self, record: KycRecord)
        requires
            old(self).wf(),
        ensures
            final(self).wf(),
            final(self)@.records == old(self)@.records.insert(record.address@, record@),
            final(self)@.blacklist == old(self)@.blacklist,
    {
        match self.find_record(&record.address) {
            Some(i) => {
                proof {
                    lemma_table_replace(self.records@, i as int, record);
                }
                self.records.set(i, record);
            },
            None => {
                proof {
                    lemma_table_push(self.records@, record);
                }
                self.records.push(record);
            },
        }
    }

    /// Deletes the record about `address`, if there is one.
    pub fn remove_record(&mut self, address: &String)
        requires
            old(self).wf(),
        ensures
            final(self).wf(),
            final(self)@.records == old(self)@.records.remove(address@),
            final(self)@.blacklist == old(self)@.blacklist,
    {
        match self.find_record(address) {
            Some(i) => {
                proof {
                    lemma_table_remove(self.records@, i as int);
                }
                self.records.remove(i);
            },
            None => {
                assert(self@.records =~= self@.records.remove(address@));
            },
        }
    }

    /// Bars `address`.
    pub fn add_to_blacklist(&mut self, address: String)
        requires
            old(self).wf(),
        ensures
            final(self).wf(),
            final(self)@.records == old(self)@.records,
            final(self)@.blacklist == old(self)@.blacklist.insert(address@),
    {
        if self.is_blacklisted(&address) {
            assert(self@.blacklist =~= self@.blacklist.insert(address@));
        } else {
            proof {
                lemma_barred_push(self.blacklist@, address);
            }
            self.blacklist.push(address);
        }
    }
}

/// Seconds in a day.
pub const SECONDS_PER_DAY: u64 = 86400;

/// Looks up whether `address` is verified at `required_level`.
///
/// Fails with `Blacklisted` for a barred address, with `KycRequired` for an
/// address without a record, with `KycExpired` for a record whose expiry
/// time has passed, and with `InsufficientKycLevel` for a record below
/// `required_level`, in this order. Otherwise the result is the record's
/// `verified` flag.
pub fn is_kyc_verified(state: &State, address: &String, required_level: u8, now: u64) -> (r:
    Result<bool, ContractError>)
    requires
        state.wf(),
    ensures
        r == state@.kyc.verified(address@, required_level, now),
{
    state.kyc.lookup(address, required_level, now)
}

/// The time at which a record made at `now` for `days` days runs out.
pub open spec fn expiry(now: u64, days: Option<u64>) -> Option<u64> {
    match days {
        Some(d) => Some((now + d * SECONDS_PER_DAY) as u64),
        None => None,
    }
}

/// Why a verification is refused, if it is: the sender is not the
/// administrator, or the expiry time does not fit in 64 bits.
pub open spec fn verify_refusal(s: StateView, now: u64, sender: Seq<char>, days: Option<u64>)
    -> Option<ContractError> {
    if sender != s.config.admin {
        Some(ContractError::Unauthorized)
    } else if days is Some && now + days->0 * SECONDS_PER_DAY > u64::MAX {
        Some(ContractError::Overflow)
    } else {
        None
    }
}

/// The attributes of a verification.
pub open spec fn verify_attributes(address: Seq<char>, level: u8, sender: Seq<char>) -> Seq<
    (Seq<char>, Seq<char>),
> {
    seq![
        ("action"@, "verify_kyc"@),
        ("address"@, address),
        ("level"@, decimal(level as nat)),
        ("verified_by"@, sender),
    ]
}

/// The verify command as a function of the state: the administrator
/// records `address` as verified at `level`, for `days` days or for good.
pub open spec fn verify(
    s: StateView,
    now: u64,
    sender: Seq<char>,
    address: Seq<char>,
    level: u8,
    days: Option<u64>,
) -> Outcome {
    match verify_refusal(s, now, sender, days) {
        Some(e) => Outcome { state: s, result: Err(e) },
        None => {
            let record = KycRecordView {
                address,
                verified: true,
                level,
                verified_at: now,
                verified_by: sender,
                expires_at: expiry(now, days),
            };
            Outcome {
                state: StateView {
                    kyc: KycRegistryView {
                        records: s.kyc.records.insert(address, record),
                        blacklist: s.kyc.blacklist,
                    },
                    ..s
                },
                result: Ok(
                    ResponseView {
                        messages: Seq::empty(),
                        attributes: verify_attributes(address, level, sender),
                    },
                ),
            }
        },
    }
}

/// Records `address` as verified at `level`, replacing any earlier record
/// about it. Only the administrator may do so. With `expires_in_days` the
/// record runs out that many days after the current time.
pub fn verify_kyc(
    state: &mut State,
    env: &Env,
    info: &MessageInfo,
    address: String,
    level: u8,
    expires_in_days: Option<u64>,
) -> (r: Result<Response, ContractError>)
    requires
        old(state).wf(),
    ensures
        final(state).wf(),
        final(state)@ == verify(
            old(state)@,
            env.time,
            info.sender@,
            address@,
            level,
            expires_in_days,
        ).state,
        result_view(r) == verify(
            old(state)@,
            env.time,
            info.sender@,
            address@,
            level,
            expires_in_days,
        ).result,
{
    if !(info.sender == state.config.admin) {
        return Err(ContractError::Unauthorized);
    }
    let expires_at = match expires_in_days {
        Some(days) => {
            let span = match days.checked_mul(SECONDS_PER_DAY) {
                Some(v) => v,
                None => {
                    return Err(ContractError::Overflow);
                },
            };
            match env.time.checked_add(span) {
                Some(v) => Some(v),
                None => {
                    return Err(ContractError::Overflow);
                },
            }
        },
        None => None,
    };
    let mut resp = Response::new();
    resp.add_attribute("action", "verify_kyc".to_owned());
    resp.add_attribute("address", address.clone());
    resp.add_attribute("level", u64_to_decimal(level as u64));
    resp.add_attribute("verified_by", info.sender.clone());
    assert(resp@.attributes =~= verify_attributes(address@, level, info.sender@));
    state.kyc.set_record(
        KycRecord {
            address,
            verified: true,
            level,
            verified_at: env.time,
            verified_by: info.sender.clone(),
            expires_at,
        },
    );
    Ok(resp)
}

/// The attributes of a revocation.
pub open spec fn revoke_attributes(address: Seq<char>, sender: Seq<char>) -> Seq<
    (Seq<char>, Seq<char>),
> {
    seq![("action"@, "revoke_verification"@), ("address"@, address), ("revoked_by"@, sender)]
}

/// The revoke command as a function of the state: the administrator deletes
/// the record about `address`.
pub open spec fn revoke(s: StateView, sender: Seq<char>, address: Seq<char>) -> Outcome {
    if sender != s.config.admin {
        Outcome { state: s, result: Err(ContractError::Unauthorized) }
    } else {
        Outcome {
            state: StateView {
                kyc: KycRegistryView {
                    records: s.kyc.records.remove(address),
                    blacklist: s.kyc.blacklist,
                },
                ..s
            },
            result: Ok(
                ResponseView {
                    messages: Seq::empty(),
                    attributes: revoke_attributes(address, sender),
                },
            ),
        }
    }
}

/// Deletes the verification record about `address`. Only the administrator
/// may do so.
pub fn execute_revoke_verification(state: &mut State, info: &MessageInfo, address: String) -> (r:
    Result<Response, ContractError>)
    requires
        old(state).wf(),
    ensures
        final(state).wf(),
        final(state)@ == revoke(old(state)@, info.sender@, address@).state,
        result_view(r) == revoke(old(state)@, info.sender@, address@).result,
{
    if !(info.sender == state.config.admin) {
        return Err(ContractError::Unauthorized);
    }
    state.kyc.remove_record(&address);
    let mut resp = Response::new();
    resp.add_attribute("action", "revoke_verification".to_owned());
    resp.add_attribute("address", address);
    resp.add_attribute("revoked_by", info.sender.clone());
    assert(resp@.attributes =~= revoke_attributes(address@, info.sender@));
    Ok(resp)
}

/// The attributes of a blacklisting.
pub open spec fn blacklist_attributes(address: Seq<char>, sender: Seq<char>) -> Seq<
    (Seq<char>, Seq<char>),
> {
    seq![("action"@, "blacklist_address"@), ("address"@, address), ("blacklisted_by"@, sender)]
}

/// The blacklist command as a function of the state: the administrator bars
/// `address`, whatever its verification says.
pub open spec fn blacklist(s: StateView, sender: Seq<char>, address: Seq<char>) -> Outcome {
    if sender != s.config.admin {
        Outcome { state: s, result: Err(ContractError::Unauthorized) }
    } else {
        Outcome {
            state: StateView {
                kyc: KycRegistryView {
                    records: s.kyc.records,
                    blacklist: s.kyc.blacklist.insert(address),
                },
                ..s
            },
            result: Ok(
                ResponseView {
                    messages: Seq::empty(),
                    attributes: blacklist_attributes(address, sender),
                },
            ),
        }
    }
}

/// Puts `address` on the blacklist. Only the administrator may do so.
pub fn blacklist_address(state: &mut State, info: &MessageInfo, address: String) -> (r: Result<
    Response,
    ContractError,
>)
    requires
        old(state).wf(),
    ensures
        final(state).wf(),
        final(state)@ == blacklist(old(state)@, info.sender@, address@).state,
        result_view(r) == blacklist(old(state)@, info.sender@, address@).result,
{
    if !(info.sender == state.config.admin) {
        return Err(ContractError::Unauthorized);
    }
    let mut resp = Response::new();
    resp.add_attribute("action", "blacklist_address".to_owned());
    resp.add_attribute("address", address.clone());
    resp.add_attribute("blacklisted_by", info.sender.clone());
    assert(resp@.attributes =~= blacklist_attributes(address@, info.sender@));
    state.kyc.add_to_blacklist(address);
    Ok(resp)
}

} // verus!
