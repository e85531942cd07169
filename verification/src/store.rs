//! The credit record store: one record per wallet.
//!
//! A wallet without a stored record stands for the fresh record: reading it
//! gives every field its zero value, and the first submission or score for
//! the wallet creates the record. Records are never removed.

use vstd::prelude::*;
use crate::errors::ErrorCode;
use crate::record::{cooldown_active, score_expired, CreditAccount, EncryptedWalletMetrics, Policy};

verus! {

/// No two records are of the same wallet.
spec fn distinct_wallets(records: Seq<CreditAccount>) -> bool {
    forall|i: int, j: int|
        0 <= i < j < records.len() ==> (#[trigger] records[i]).wallet != (#[trigger] records[j]).wallet
}

/// Some record is of the wallet.
spec fn holds(records: Seq<CreditAccount>, wallet: [u8; 32]) -> bool {
    exists|i: int| 0 <= i < records.len() && (#[trigger] records[i]).wallet == wallet
}

/// The place of the wallet's record, where there is one.
spec fn position(records: Seq<CreditAccount>, wallet: [u8; 32]) -> int {
    choose|i: int| 0 <= i < records.len() && (#[trigger] records[i]).wallet == wallet
}

/// The records as a map from wallet to record.
spec fn as_map(records: Seq<CreditAccount>) -> Map<[u8; 32], CreditAccount> {
    Map::new(|wallet: [u8; 32]| holds(records, wallet), |wallet: [u8; 32]| records[position(records, wallet)])
}

/// The record at a place is the one found for its wallet.
proof fn lemma_position(records: Seq<CreditAccount>, k: int)
    requires
        distinct_wallets(records),
        0 <= k < records.len(),
    ensures
        holds(records, records[k].wallet),
        position(records, records[k].wallet) == k,
        as_map(records).contains_key(records[k].wallet),
        as_map(records)[records[k].wallet] == records[k],
{
    let wallet = records[k].wallet;
    assert(holds(records, wallet));
    let found = position(records, wallet);
    assert(0 <= found < records.len() && records[found].wallet == wallet);
    if found < k {
        assert(records[found].wallet != records[k].wallet);
    } else if k < found {
        assert(records[k].wallet != records[found].wallet);
    }
}

/// Replacing a record by one of the same wallet replaces it in the map.
proof fn lemma_replace(records: Seq<CreditAccount>, k: int, record: CreditAccount)
    requires
        distinct_wallets(records),
        0 <= k < records.len(),
        record.wallet == records[k].wallet,
    ensures
        distinct_wallets(records.update(k, record)),
        as_map(records.update(k, record)) == as_map(records).insert(record.wallet, record),
{
    let after = records.update(k, record);
    assert forall|i: int| 0 <= i < records.len() implies (#[trigger] after[i]).wallet
        == records[i].wallet by {}
    assert(distinct_wallets(after)) by {
        assert forall|i: int, j: int| 0 <= i < j < after.len() implies (#[trigger] after[i]).wallet
            != (#[trigger] after[j]).wallet by {
            assert(records[i].wallet != records[j].wallet);
        }
    }
    let expected = as_map(records).insert(record.wallet, record);
    assert forall|wallet: [u8; 32]| as_map(after).contains_key(wallet) == expected.contains_key(
        wallet,
    ) by {
        if holds(after, wallet) {
            let i = position(after, wallet);
            assert(records[i].wallet == wallet);
        }
        if holds(records, wallet) {
            let i = position(records, wallet);
            assert(after[i].wallet == wallet);
        }
        if wallet == record.wallet {
            assert(after[k].wallet == wallet);
        }
    }
    assert forall|wallet: [u8; 32]| as_map(after).contains_key(wallet) implies as_map(after)[wallet]
        == expected[wallet] by {
        let i = position(after, wallet);
        assert(after[i].wallet == wallet);
        lemma_position(after, i);
        lemma_position(records, i);
        if i == k {
        } else {
            assert(wallet != record.wallet) by {
                if i < k {
                    assert(records[i].wallet != records[k].wallet);
                } else {
                    assert(records[k].wallet != records[i].wallet);
                }
            }
        }
    }
    assert(as_map(after) =~= expected);
}

/// Appending the record of a wallet that has none adds it to the map.
proof fn lemma_append(records: Seq<CreditAccount>, record: CreditAccount)
    requires
        distinct_wallets(records),
        !holds(records, record.wallet),
    ensures
        distinct_wallets(records.push(record)),
        as_map(records.push(record)) == as_map(records).insert(record.wallet, record),
{
    let after = records.push(record);
    let last = records.len() as int;
    assert forall|i: int| 0 <= i < records.len() implies (#[trigger] after[i]) == records[i] by {}
    assert(after[last] == record);
    assert(distinct_wallets(after)) by {
        assert forall|i: int, j: int| 0 <= i < j < after.len() implies (#[trigger] after[i]).wallet
            != (#[trigger] after[j]).wallet by {
            if j < last {
                assert(records[i].wallet != records[j].wallet);
            } else {
                assert(records[i].wallet != record.wallet);
            }
        }
    }
    let expected = as_map(records).insert(record.wallet, record);
    assert forall|wallet: [u8; 32]| as_map(after).contains_key(wallet) == expected.contains_key(
        wallet,
    ) by {
        if holds(after, wallet) {
            let i = position(after, wallet);
            if i < last {
                assert(records[i].wallet == wallet);
            }
        }
        if holds(records, wallet) {
            let i = position(records, wallet);
            assert(after[i].wallet == wallet);
        }
        if wallet == record.wallet {
            assert(after[last].wallet == wallet);
        }
    }
    assert forall|wallet: [u8; 32]| as_map(after).contains_key(wallet) implies as_map(after)[wallet]
        == expected[wallet] by {
        let i = position(after, wallet);
        assert(after[i].wallet == wallet);
        lemma_position(after, i);
        if i < last {
            assert(records[i].wallet == wallet);
            lemma_position(records, i);
        }
    }
    assert(as_map(after) =~= expected);
}

/// The record that a map of records holds for a wallet: the stored one, or
/// the fresh record where none is stored.
pub open spec fn record_in(records: Map<[u8; 32], CreditAccount>, wallet: [u8; 32]) -> CreditAccount {
    if records.contains_key(wallet) {
        records[wallet]
    } else {
        CreditAccount::fresh(wallet)
    }
}

/// Whether two keys are the same, byte for byte.
pub fn same_key(a: &[u8; 32], b: &[u8; 32]) -> (same: bool)
    ensures
        same == (*a == *b),
{
    let mut i: usize = 0;
    while i < 32
        invariant
            i <= 32,
            forall|k: int| 0 <= k < i ==> a[k] == b[k],
        decreases 32 - i,
    {
        if a[i] != b[i] {
            return false;
        }
        i = i + 1;
    }
    assert(*a =~= *b);
    true
}

/// The credit records of all wallets.
#[derive(Debug)]
pub struct CreditStore {
    records: Vec<CreditAccount>,
}

impl View for CreditStore {
    type V = Map<[u8; 32], CreditAccount>;

    /// The stored records, each under its wallet.
    closed spec fn view(&self) -> Map<[u8; 32], CreditAccount> {
        as_map(self.records@)
    }
}

impl CreditStore {
    #[verifier::type_invariant]
    spec fn one_record_per_wallet(self) -> bool {
        distinct_wallets(self.records@)
    }

    /// A store without records.
    pub fn new() -> (store: CreditStore)
        ensures
            store@ == Map::<[u8; 32], CreditAccount>::empty(),
    {
        let store = CreditStore { records: Vec::new() };
        assert(store@ =~= Map::<[u8; 32], CreditAccount>::empty());
        store
    }

    /// The place of the wallet's record.
    fn find(&self, wallet: &[u8; 32]) -> (place: Option<usize>)
        ensures
            place matches Some(k) ==> k < self.records@.len() && self.records@[k as int].wallet
                == *wallet,
            place is None ==> !holds(self.records@, *wallet),
    {
        let mut i: usize = 0;
        while i < self.records.len()
            invariant
                i <= self.records@.len(),
                forall|k: int| 0 <= k < i ==> (#[trigger] self.records@[k]).wallet != *wallet,
            decreases self.records@.len() - i,
        {
            if same_key(&self.records[i].wallet, wallet) {
                return Some(i);
            }
            i = i + 1;
        }
        None
    }

    /// The number of wallets with a stored record.
    pub fn len(&self) -> (count: usize)
        ensures
            count == self@.dom().len(),
            self@.dom().finite(),
    {
        proof {
            use_type_invariant(self);
            lemma_domain_size(self.records@);
        }
        self.records.len()
    }

    /// Whether a record is stored for the wallet.
    pub fn contains(&self, wallet: &[u8; 32]) -> (stored: bool)
        ensures
            stored == self@.contains_key(*wallet),
    {
        self.find(wallet).is_some()
    }

    /// The record of the wallet: the stored one, or the fresh record where
    /// none is stored. The store is not changed.
    pub fn get_or_create(&self, wallet: &[u8; 32]) -> (record: CreditAccount)
        ensures
            record == record_in(self@, *wallet),
            record.wallet == *wallet,
    {
        proof {
            use_type_invariant(self);
        }
        match self.find(wallet) {
            Some(k) => {
                proof {
                    lemma_position(self.records@, k as int);
                }
                self.records[k]
            },
            None => CreditAccount::new(*wallet),
        }
    }

    /// Stores a record under its wallet, in place of the one stored before.
    pub fn put(&mut self, record: CreditAccount)
        ensures
            final(self)@ == old(self)@.insert(record.wallet, record),
    {
        proof {
            use_type_invariant(&*self);
        }
        let place = self.find(&record.wallet);
        // The records are taken out, changed and put back, so that the store
        // holds distinct wallets at every step.
        let mut records: Vec<CreditAccount> = Vec::new();
        core::mem::swap(&mut self.records, &mut records);
        match place {
            Some(k) => {
                proof {
                    lemma_replace(records@, k as int, record);
                }
                records.set(k, record);
            },
            None => {
                proof {
                    lemma_append(records@, record);
                }
                records.push(record);
            },
        }
        self.records = records;
    }

    /// Records a submission for the wallet at `now`. While the cooldown of the
    /// wallet's previous submission is active, nothing is changed.
    pub fn apply_submission(
        &mut self,
        wallet: &[u8; 32],
        metrics: EncryptedWalletMetrics,
        now: i64,
        policy: &Policy,
    ) -> (outcome: Result<(), ErrorCode>)
        ensures
            cooldown_active(record_in(old(self)@, *wallet).last_updated, now, policy.update_cooldown)
                ==> outcome == Err::<(), ErrorCode>(ErrorCode::UpdateTooSoon) && final(self)@
                == old(self)@,
            !cooldown_active(
                record_in(old(self)@, *wallet).last_updated,
                now,
                policy.update_cooldown,
            ) ==> outcome == Ok::<(), ErrorCode>(()) && final(self)@ == old(self)@.insert(
                *wallet,
                record_in(old(self)@, *wallet).with_submission(metrics, now),
            ),
    {
        let mut record = self.get_or_create(wallet);
        match record.apply_submission(metrics, now, policy) {
            Err(refusal) => Err(refusal),
            Ok(()) => {
                self.put(record);
                Ok(())
            },
        }
    }

    /// Records a score for the wallet, computed at `now`. No cooldown applies.
    pub fn apply_score(&mut self, wallet: &[u8; 32], score: u16, now: i64)
        ensures
            final(self)@ == old(self)@.insert(
                *wallet,
                record_in(old(self)@, *wallet).with_score(score, now),
            ),
    {
        let mut record = self.get_or_create(wallet);
        record.apply_score(score, now);
        self.put(record);
    }

    /// Whether the wallet's score may be disclosed at `now`.
    pub fn check_freshness(&self, wallet: &[u8; 32], now: i64, policy: &Policy) -> (outcome: Result<
        (),
        ErrorCode,
    >)
        ensures
            score_expired(record_in(self@, *wallet).score_timestamp, now, policy.score_validity)
                ==> outcome == Err::<(), ErrorCode>(ErrorCode::ScoreExpired),
            !score_expired(record_in(self@, *wallet).score_timestamp, now, policy.score_validity)
                ==> outcome == Ok::<(), ErrorCode>(()),
    {
        self.get_or_create(wallet).check_freshness(now, policy)
    }
}

/// Distinct wallets make the map as large as the sequence.
proof fn lemma_domain_size(records: Seq<CreditAccount>)
    requires
        distinct_wallets(records),
    ensures
        as_map(records).dom().finite(),
        as_map(records).dom().len() == records.len(),
    decreases records.len(),
{
    if records.len() == 0 {
        assert(as_map(records).dom() =~= Set::<[u8; 32]>::empty());
    } else {
        let front = records.drop_last();
        let last = records.last();
        assert forall|i: int| 0 <= i < front.len() implies (#[trigger] front[i]) == records[i] by {}
        assert(distinct_wallets(front)) by {
            assert forall|i: int, j: int| 0 <= i < j < front.len() implies (#[trigger] front[i]).wallet
                != (#[trigger] front[j]).wallet by {
                assert(records[i].wallet != records[j].wallet);
            }
        }
        assert(!holds(front, last.wallet)) by {
            if holds(front, last.wallet) {
                let i = position(front, last.wallet);
                assert(records[i].wallet != records[records.len() - 1].wallet);
            }
        }
        lemma_domain_size(front);
        lemma_append(front, last);
        assert(front.push(last) =~= records);
        assert(as_map(records).dom() =~= as_map(front).dom().insert(last.wallet));
        assert(!as_map(front).dom().contains(last.wallet));
    }
}

} // verus!
