//! The contract records: one address under each `(code id, label)`.

use vstd::prelude::*;
use crate::order::{compare_keys, key_lt, lemma_key_lt_irreflexive, lemma_key_lt_transitive, ContractKey, Rank};

verus! {

/// What is recorded about one instantiated contract.
#[derive(Clone, Debug, PartialEq, Eq)]
pub struct Contract {
    pub address: String,
}

/// One record: the key it stands under and the contract it names.
#[derive(Clone, Debug, PartialEq, Eq)]
pub struct ContractRecord {
    pub code_id: u64,
    pub label: String,
    pub contract: Contract,
}

impl ContractRecord {
    /// The key of this record.
    pub open spec fn key(&self) -> ContractKey {
        ContractKey { code_id: self.code_id, label: self.label@ }
    }
}

/// The keys of `records` ascend strictly.
pub open spec fn ascending(records: Seq<ContractRecord>) -> bool {
    forall|i: int, j: int|
        0 <= i < j < records.len() ==> key_lt(#[trigger] records[i].key(), #[trigger] records[j].key())
}

/// Some record of `records` stands under `key`.
pub open spec fn holds_key(records: Seq<ContractRecord>, key: ContractKey) -> bool {
    exists|i: int| 0 <= i < records.len() && #[trigger] records[i].key() == key
}

/// A position in `records` of a record under `key`.
pub open spec fn position_of(records: Seq<ContractRecord>, key: ContractKey) -> int {
    choose|i: int| 0 <= i < records.len() && #[trigger] records[i].key() == key
}

/// The records as a map from key to address.
pub open spec fn addresses_of(records: Seq<ContractRecord>) -> Map<ContractKey, Seq<char>> {
    Map::new(
        |key: ContractKey| holds_key(records, key),
        |key: ContractKey| records[position_of(records, key)].contract.address@,
    )
}

/// The label and the address of each entry of a list of contracts.
pub open spec fn listing_view(list: Seq<(String, Contract)>) -> Seq<(Seq<char>, Seq<char>)> {
    list.map_values(|entry: (String, Contract)| (entry.0@, entry.1.address@))
}

/// The keys of `keys` descend strictly.
pub open spec fn descending(keys: Seq<ContractKey>) -> bool {
    forall|i: int, j: int| 0 <= i < j < keys.len() ==> key_lt(keys[j], keys[i])
}

/// `keys` holds the keys of `m` from the greatest down, and `pairs` gives the
/// label and the address of each, in that order.
pub open spec fn is_descending_listing(
    m: Map<ContractKey, Seq<char>>,
    keys: Seq<ContractKey>,
    pairs: Seq<(Seq<char>, Seq<char>)>,
) -> bool {
    &&& keys.len() == pairs.len()
    &&& descending(keys)
    &&& forall|k: ContractKey| m.contains_key(k) <==> keys.contains(k)
    &&& forall|i: int| 0 <= i < keys.len() ==> #[trigger] pairs[i] == (keys[i].label, m[keys[i]])
}

/// `pairs` is the listing of `m`: the label and the address of every record,
/// each record once, in descending order of the keys.
pub open spec fn is_listing_of(
    m: Map<ContractKey, Seq<char>>,
    pairs: Seq<(Seq<char>, Seq<char>)>,
) -> bool {
    exists|keys: Seq<ContractKey>| #[trigger] is_descending_listing(m, keys, pairs)
}

/// Two descending runs of keys that hold the same keys are the same run.
pub proof fn lemma_descending_unique(a: Seq<ContractKey>, b: Seq<ContractKey>)
    requires
        descending(a),
        descending(b),
        forall|k: ContractKey| a.contains(k) <==> b.contains(k),
    ensures
        a == b,
    decreases a.len(),
{
    if a.len() == 0 {
        if b.len() > 0 {
            assert(b.contains(b[0]));
        }
        assert(a =~= b);
    } else {
        assert(a.contains(a[0]));
        let j = b.index_of(a[0]);
        assert(b.contains(b[0]));
        let i = a.index_of(b[0]);
        if j > 0 {
            if i == 0 {
                lemma_key_lt_irreflexive(a[0]);
            } else {
                lemma_key_lt_transitive(a[0], b[0], a[0]);
                lemma_key_lt_irreflexive(a[0]);
            }
        }
        assert(a[0] == b[0]);
        let ta = a.drop_first();
        let tb = b.drop_first();
        assert forall|k: ContractKey| ta.contains(k) <==> tb.contains(k) by {
            lemma_key_lt_irreflexive(a[0]);
            if ta.contains(k) {
                let x = ta.index_of(k);
                assert(a[x + 1] == k);
                assert(a.contains(k));
                let y = b.index_of(k);
                assert(y > 0);
                assert(tb[y - 1] == k);
            }
            if tb.contains(k) {
                let y = tb.index_of(k);
                assert(b[y + 1] == k);
                assert(b.contains(k));
                let x = a.index_of(k);
                assert(x > 0);
                assert(ta[x - 1] == k);
            }
        }
        assert(descending(ta)) by {
            assert forall|i: int, j: int| 0 <= i < j < ta.len() implies key_lt(ta[j], ta[i]) by {
                assert(ta[i] == a[i + 1] && ta[j] == a[j + 1]);
            }
        }
        assert(descending(tb)) by {
            assert forall|i: int, j: int| 0 <= i < j < tb.len() implies key_lt(tb[j], tb[i]) by {
                assert(tb[i] == b[i + 1] && tb[j] == b[j + 1]);
            }
        }
        lemma_descending_unique(ta, tb);
        assert forall|i: int| 0 <= i < a.len() implies a[i] == b[i] by {
            if i > 0 {
                assert(ta[i - 1] == a[i]);
                assert(tb[i - 1] == b[i]);
            }
        }
        assert(a.len() == ta.len() + 1);
        assert(b.len() == tb.len() + 1);
        assert(a =~= b);
    }
}

/// The records determine their listing: two listings of one map are equal.
pub proof fn lemma_listing_unique(
    m: Map<ContractKey, Seq<char>>,
    a: Seq<(Seq<char>, Seq<char>)>,
    b: Seq<(Seq<char>, Seq<char>)>,
)
    requires
        is_listing_of(m, a),
        is_listing_of(m, b),
    ensures
        a == b,
{
    let ka = choose|keys: Seq<ContractKey>| is_descending_listing(m, keys, a);
    let kb = choose|keys: Seq<ContractKey>| is_descending_listing(m, keys, b);
    lemma_descending_unique(ka, kb);
    assert(a =~= b);
}

/// A listing leaves no record out and lists none twice: it has one entry for
/// each key of the map, and the pair of every record is in it. The listing of
/// no records is empty.
pub proof fn lemma_listing_complete(
    m: Map<ContractKey, Seq<char>>,
    pairs: Seq<(Seq<char>, Seq<char>)>,
)
    requires
        is_listing_of(m, pairs),
    ensures
        m.dom().finite(),
        pairs.len() == m.dom().len(),
        forall|k: ContractKey| m.contains_key(k) ==> pairs.contains((k.label, m[k])),
        m == Map::<ContractKey, Seq<char>>::empty() ==> pairs.len() == 0,
{
    let keys = choose|keys: Seq<ContractKey>| is_descending_listing(m, keys, pairs);
    assert(keys.no_duplicates()) by {
        assert forall|i: int, j: int|
            0 <= i < keys.len() && 0 <= j < keys.len() && i != j implies keys[i] != keys[j] by {
            lemma_key_lt_irreflexive(keys[i]);
        }
    }
    keys.unique_seq_to_set();
    vstd::seq_lib::seq_to_set_is_finite(keys);
    assert(keys.to_set() =~= m.dom());
    assert forall|k: ContractKey| m.contains_key(k) implies pairs.contains((k.label, m[k])) by {
        let i = keys.index_of(k);
        assert(pairs[i] == (k.label, m[k]));
    }
}

/// In ascending records no key stands at two positions.
pub proof fn lemma_ascending_distinct(records: Seq<ContractRecord>, i: int, j: int)
    requires
        ascending(records),
        0 <= i < records.len(),
        0 <= j < records.len(),
        records[i].key() == records[j].key(),
    ensures
        i == j,
{
    lemma_key_lt_irreflexive(records[i].key());
}

/// In ascending records, the map gives at each record's key that record's
/// address.
pub proof fn lemma_addresses_at(records: Seq<ContractRecord>, i: int)
    requires
        ascending(records),
        0 <= i < records.len(),
    ensures
        addresses_of(records).contains_key(records[i].key()),
        addresses_of(records)[records[i].key()] == records[i].contract.address@,
{
    let key = records[i].key();
    assert(holds_key(records, key));
    lemma_ascending_distinct(records, i, position_of(records, key));
}

/// Putting a record with a new key at a place that keeps the keys ascending
/// adds that key, with its address, to the map.
pub proof fn lemma_addresses_insert(records: Seq<ContractRecord>, at: int, record: ContractRecord)
    requires
        ascending(records),
        0 <= at <= records.len(),
        ascending(records.insert(at, record)),
    ensures
        !addresses_of(records).contains_key(record.key()),
        addresses_of(records.insert(at, record)) == addresses_of(records).insert(
            record.key(),
            record.contract.address@,
        ),
{
    let after = records.insert(at, record);
    let key = record.key();
    assert(after[at] == record);
    assert forall|i: int| 0 <= i < records.len() implies records[i] == after[if i < at {
        i
    } else {
        i + 1
    }] by {}
    if holds_key(records, key) {
        let i = position_of(records, key);
        lemma_ascending_distinct(after, at, if i < at { i } else { i + 1 });
    }
    let left = addresses_of(after);
    let right = addresses_of(records).insert(key, record.contract.address@);
    assert forall|k: ContractKey| left.contains_key(k) <==> right.contains_key(k) by {
        if left.contains_key(k) {
            let i = position_of(after, k);
            if i != at {
                let old_i = if i < at { i } else { i - 1 };
                assert(records[old_i].key() == k);
            }
        }
        if right.contains_key(k) && k != key {
            let i = position_of(records, k);
            assert(after[if i < at { i } else { i + 1 }].key() == k);
        }
    }
    assert forall|k: ContractKey| left.contains_key(k) implies left[k] == right[k] by {
        let i = position_of(after, k);
        lemma_addresses_at(after, i);
        if i != at {
            let old_i = if i < at { i } else { i - 1 };
            assert(records[old_i] == after[i]);
            lemma_addresses_at(records, old_i);
            if k == key {
                lemma_ascending_distinct(after, i, at);
            }
        }
    }
    assert(left =~= right);
}

/// The contract records, kept in ascending order of their keys.
#[derive(Debug, PartialEq, Eq)]
pub struct ContractStore {
    records: Vec<ContractRecord>,
}

impl View for ContractStore {
    type V = Map<ContractKey, Seq<char>>;

    closed spec fn view(&self) -> Map<ContractKey, Seq<char>> {
        addresses_of(self.records@)
    }
}

impl Clone for ContractStore {
    fn clone(&self) -> (copy: Self)
        ensures
            copy@ == self@,
    {
        ContractStore { records: self.records() }
    }
}

impl ContractStore {
    #[verifier::type_invariant]
    spec fn well_formed(&self) -> bool {
        ascending(self.records@)
    }

    /// A store without records.
    pub fn new() -> (store: Self)
        ensures
            store@ == Map::<ContractKey, Seq<char>>::empty(),
    {
        let store = ContractStore { records: Vec::new() };
        assert(store@ =~= Map::<ContractKey, Seq<char>>::empty());
        store
    }

    /// The address recorded under `(code_id, label)`, if there is one.
    pub fn get(&self, code_id: u64, label: &String) -> (found: Option<String>)
        ensures
            match found {
                Some(address) => self@.contains_key(ContractKey { code_id, label: label@ })
                    && address@ == self@[ContractKey { code_id, label: label@ }],
                None => !self@.contains_key(ContractKey { code_id, label: label@ }),
            },
    {
        proof {
            use_type_invariant(self);
        }
        let ghost key = ContractKey { code_id, label: label@ };
        let mut i: usize = 0;
        while i < self.records.len()
            invariant
                i <= self.records@.len(),
                key == (ContractKey { code_id, label: label@ }),
                ascending(self.records@),
                forall|j: int| 0 <= j < i ==> (#[trigger] self.records@[j]).key() != key,
            decreases self.records@.len() - i,
        {
            let record = &self.records[i];
            if record.code_id == code_id && record.label == *label {
                proof {
                    lemma_addresses_at(self.records@, i as int);
                }
                return Some(record.contract.address.clone());
            }
            i = i + 1;
        }
        None
    }

    /// Records `address` under `(code_id, label)` unless that key is taken.
    /// Returns whether the record was added.
    pub fn insert(&mut self, code_id: u64, label: String, address: String) -> (added: bool)
        ensures
            added == !old(self)@.contains_key(ContractKey { code_id, label: label@ }),
            added ==> final(self)@ == old(self)@.insert(
                ContractKey { code_id, label: label@ },
                address@,
            ),
            !added ==> final(self)@ == old(self)@,
    {
        proof {
            use_type_invariant(&*self);
        }
        let ghost key = ContractKey { code_id, label: label@ };
        let n: usize = self.records.len();
        let mut at: usize = 0;
        let mut searching: bool = true;
        while searching && at < n
            invariant
                at <= n,
                n == self.records@.len(),
                *self == *old(self),
                key == (ContractKey { code_id, label: label@ }),
                ascending(self.records@),
                forall|j: int| 0 <= j < at ==> key_lt((#[trigger] self.records@[j]).key(), key),
                !searching ==> at < n && key_lt(key, self.records@[at as int].key()),
            decreases n - at, searching as int,
        {
            let record = &self.records[at];
            match compare_keys(record.code_id, &record.label, code_id, &label) {
                Rank::Less => {
                    at = at + 1;
                },
                Rank::Equal => {
                    proof {
                        lemma_addresses_at(self.records@, at as int);
                    }
                    return false;
                },
                Rank::Greater => {
                    searching = false;
                },
            }
        }
        let record = ContractRecord { code_id, label, contract: Contract { address } };
        let mut records: Vec<ContractRecord> = Vec::new();
        std::mem::swap(&mut records, &mut self.records);
        let ghost before = records@;
        records.insert(at, record);
        proof {
            let after = records@;
            assert forall|i: int, j: int| 0 <= i < j < after.len() implies key_lt(
                #[trigger] after[i].key(),
                #[trigger] after[j].key(),
            ) by {
                let bi = if i < at { i } else { i - 1 };
                let bj = if j < at { j } else { j - 1 };
                if i == at {
                    if bj > at {
                        lemma_key_lt_transitive(key, before[at as int].key(), before[bj].key());
                    }
                } else if j == at {
                } else {
                    assert(after[i] == before[bi]);
                    assert(after[j] == before[bj]);
                }
            }
            lemma_addresses_insert(before, at as int, record);
        }
        self.records = records;
        true
    }

    /// The records, in ascending order of their keys.
    pub fn records(&self) -> (records: Vec<ContractRecord>)
        ensures
            ascending(records@),
            addresses_of(records@) == self@,
    {
        proof {
            use_type_invariant(self);
        }
        let mut records: Vec<ContractRecord> = Vec::new();
        let mut i: usize = 0;
        while i < self.records.len()
            invariant
                i <= self.records@.len(),
                records@ == self.records@.take(i as int),
            decreases self.records@.len() - i,
        {
            let record = &self.records[i];
            records.push(
                ContractRecord {
                    code_id: record.code_id,
                    label: record.label.clone(),
                    contract: Contract { address: record.contract.address.clone() },
                },
            );
            assert(records@ =~= self.records@.take(i + 1));
            i = i + 1;
        }
        assert(records@ =~= self.records@);
        records
    }

    /// Every recorded pair of label and contract, in descending order of the
    /// keys.
    pub fn list(&self) -> (list: Vec<(String, Contract)>)
        ensures
            is_listing_of(self@, listing_view(list@)),
    {
        proof {
            use_type_invariant(self);
        }
        let n: usize = self.records.len();
        let mut list: Vec<(String, Contract)> = Vec::new();
        let mut i: usize = 0;
        while i < n
            invariant
                i <= n,
                n == self.records@.len(),
                list@.len() == i,
                forall|j: int|
                    0 <= j < i ==> (#[trigger] list@[j]).0@ == self.records@[n - 1 - j].label@
                        && list@[j].1.address@ == self.records@[n - 1 - j].contract.address@,
            decreases n - i,
        {
            let record = &self.records[n - 1 - i];
            list.push((record.label.clone(), Contract { address: record.contract.address.clone() }));
            i = i + 1;
        }
        proof {
            let records = self.records@;
            let keys = Seq::new(n as nat, |j: int| records[n - 1 - j].key());
            assert forall|k: ContractKey| self@.contains_key(k) <==> keys.contains(k) by {
                if self@.contains_key(k) {
                    let p = position_of(records, k);
                    assert(keys[n - 1 - p] == k);
                }
                if keys.contains(k) {
                    let j = choose|j: int| 0 <= j < keys.len() && keys[j] == k;
                    assert(records[n - 1 - j].key() == k);
                }
            }
            let pairs = listing_view(list@);
            assert forall|j: int| 0 <= j < keys.len() implies #[trigger] pairs[j] == (
                keys[j].label,
                self@[keys[j]],
            ) by {
                lemma_addresses_at(records, n - 1 - j);
            }
            assert(is_descending_listing(self@, keys, pairs));
        }
        list
    }
}

} // verus!
