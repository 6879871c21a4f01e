//! The metadata kept for each recorded contract: its rewards address, and
//! whether one was ever set.

use vstd::prelude::*;

verus! {

/// The metadata of one contract.
#[derive(Clone, Debug, PartialEq, Eq)]
pub struct ContractMetadata {
    pub rewards_address: Option<String>,
    pub metadata_set: bool,
}

/// The metadata of one contract, as a mathematical value.
pub struct MetadataView {
    pub rewards_address: Option<Seq<char>>,
    pub metadata_set: bool,
}

impl View for ContractMetadata {
    type V = MetadataView;

    open spec fn view(&self) -> MetadataView {
        MetadataView {
            rewards_address: match self.rewards_address {
                Some(address) => Some(address@),
                None => None,
            },
            metadata_set: self.metadata_set,
        }
    }
}

impl ContractMetadata {
    /// The metadata of a contract that was just recorded: no rewards address,
    /// nothing set.
    pub open spec fn unset() -> MetadataView {
        MetadataView { rewards_address: None, metadata_set: false }
    }

    /// The metadata of a contract whose rewards address was set to `rewards`.
    pub open spec fn set_to(rewards: Seq<char>) -> MetadataView {
        MetadataView { rewards_address: Some(rewards), metadata_set: true }
    }
}

/// A contract together with the address that its rewards go to.
#[derive(Clone, Debug, PartialEq, Eq)]
pub struct RewardsTarget {
    pub contract_address: String,
    pub rewards_address: String,
}

impl View for RewardsTarget {
    type V = (Seq<char>, Seq<char>);

    open spec fn view(&self) -> (Seq<char>, Seq<char>) {
        (self.contract_address@, self.rewards_address@)
    }
}

/// The pairs of contract address and rewards address of a list of targets.
pub open spec fn targets_view(targets: Seq<RewardsTarget>) -> Seq<(Seq<char>, Seq<char>)> {
    targets.map_values(|target: RewardsTarget| target@)
}

/// The contracts of `m` whose metadata is set, each with its rewards address.
pub open spec fn eligible(m: Map<Seq<char>, MetadataView>) -> Set<(Seq<char>, Seq<char>)> {
    Set::new(
        |pair: (Seq<char>, Seq<char>)|
            m.contains_key(pair.0) && m[pair.0].metadata_set && m[pair.0].rewards_address == Some(
                pair.1,
            ),
    )
}

/// The metadata stored for one address.
#[derive(Clone, Debug, PartialEq, Eq)]
pub struct MetadataEntry {
    pub address: String,
    pub metadata: ContractMetadata,
}

/// No address stands at two positions of `entries`.
pub open spec fn distinct(entries: Seq<MetadataEntry>) -> bool {
    forall|i: int, j: int|
        0 <= i < j < entries.len() ==> (#[trigger] entries[i]).address@ != (
        #[trigger] entries[j]).address@
}

/// Some entry of `entries` is for `address`.
pub open spec fn holds_address(entries: Seq<MetadataEntry>, address: Seq<char>) -> bool {
    exists|i: int| 0 <= i < entries.len() && (#[trigger] entries[i]).address@ == address
}

/// A position in `entries` of an entry for `address`.
pub open spec fn entry_of(entries: Seq<MetadataEntry>, address: Seq<char>) -> int {
    choose|i: int| 0 <= i < entries.len() && (#[trigger] entries[i]).address@ == address
}

/// The entries as a map from address to metadata.
pub open spec fn metadata_of(entries: Seq<MetadataEntry>) -> Map<Seq<char>, MetadataView> {
    Map::new(
        |address: Seq<char>| holds_address(entries, address),
        |address: Seq<char>| entries[entry_of(entries, address)].metadata@,
    )
}

/// With distinct addresses, the map gives at each entry's address that entry's
/// metadata.
pub proof fn lemma_metadata_at(entries: Seq<MetadataEntry>, i: int)
    requires
        distinct(entries),
        0 <= i < entries.len(),
    ensures
        metadata_of(entries).contains_key(entries[i].address@),
        metadata_of(entries)[entries[i].address@] == entries[i].metadata@,
{
    let address = entries[i].address@;
    assert(holds_address(entries, address));
    let j = entry_of(entries, address);
    assert(i == j);
}

/// The metadata of the recorded contracts, one entry for each address.
#[derive(Debug, PartialEq, Eq)]
pub struct MetadataStore {
    entries: Vec<MetadataEntry>,
}

impl View for MetadataStore {
    type V = Map<Seq<char>, MetadataView>;

    closed spec fn view(&self) -> Map<Seq<char>, MetadataView> {
        metadata_of(self.entries@)
    }
}

impl Clone for MetadataStore {
    fn clone(&self) -> (copy: Self)
        ensures
            copy@ == self@,
    {
        MetadataStore { entries: self.entries() }
    }
}

impl MetadataStore {
    #[verifier::type_invariant]
    spec fn well_formed(&self) -> bool {
        distinct(self.entries@)
    }

    /// A store without entries.
    pub fn new() -> (store: Self)
        ensures
            store@ == Map::<Seq<char>, MetadataView>::empty(),
    {
        let store = MetadataStore { entries: Vec::new() };
        assert(store@ =~= Map::<Seq<char>, MetadataView>::empty());
        store
    }

    /// The position of the entry for `address`, if there is one.
    fn find(&self, address: &String) -> (found: Option<usize>)
        ensures
            match found {
                Some(i) => i < self.entries@.len() && self.entries@[i as int].address@ == address@,
                None => !holds_address(self.entries@, address@),
            },
    {
        let mut i: usize = 0;
        while i < self.entries.len()
            invariant
                i <= self.entries@.len(),
                forall|j: int| 0 <= j < i ==> (#[trigger] self.entries@[j]).address@ != address@,
            decreases self.entries@.len() - i,
        {
            if self.entries[i].address == *address {
                return Some(i);
            }
            i = i + 1;
        }
        None
    }

    /// The metadata stored for `address`, if there is any.
    pub fn get(&self, address: &String) -> (found: Option<ContractMetadata>)
        ensures
            match found {
                Some(metadata) => self@.contains_key(address@) && metadata@ == self@[address@],
                None => !self@.contains_key(address@),
            },
    {
        proof {
            use_type_invariant(self);
        }
        match self.find(address) {
            Some(i) => {
                proof {
                    lemma_metadata_at(self.entries@, i as int);
                }
                let stored = &self.entries[i].metadata;
                let rewards_address = match &stored.rewards_address {
                    Some(rewards) => Some(rewards.clone()),
                    None => None,
                };
                Some(ContractMetadata { rewards_address, metadata_set: stored.metadata_set })
            },
            None => None,
        }
    }

    /// Stores `metadata` for `address`, in place of what was stored for it.
    pub fn put(&mut self, address: String, metadata: ContractMetadata)
        ensures
            final(self)@ == old(self)@.insert(address@, metadata@),
    {
        proof {
            use_type_invariant(&*self);
        }
        let found = self.find(&address);
        let entry = MetadataEntry { address, metadata };
        let mut entries: Vec<MetadataEntry> = Vec::new();
        std::mem::swap(&mut entries, &mut self.entries);
        let ghost before = entries@;
        match found {
            Some(i) => {
                entries.set(i, entry);
            },
            None => {
                entries.push(entry);
            },
        }
        proof {
            let after = entries@;
            let at: int = match found {
                Some(i) => i as int,
                None => before.len() as int,
            };
            assert(after[at] == entry);
            assert forall|j: int| 0 <= j < after.len() && j != at implies after[j] == before[j] by {}
            assert forall|j: int| 0 <= j < before.len() && j != at implies before[j].address@
                != entry.address@ by {
                if found is None {
                    assert(!holds_address(before, entry.address@));
                }
            }
            assert(distinct(after)) by {
                assert forall|i: int, j: int| 0 <= i < j < after.len() implies (
                #[trigger] after[i]).address@ != (#[trigger] after[j]).address@ by {
                    if i != at && j != at {
                        assert(after[i] == before[i]);
                        assert(after[j] == before[j]);
                    } else if i == at {
                        assert(after[j] == before[j]);
                    } else {
                        assert(after[i] == before[i]);
                    }
                }
            }
            let left = metadata_of(after);
            let right = metadata_of(before).insert(entry.address@, entry.metadata@);
            assert forall|a: Seq<char>| left.contains_key(a) <==> right.contains_key(a) by {
                if left.contains_key(a) {
                    let j = entry_of(after, a);
                    if j != at {
                        assert(before[j].address@ == a);
                    }
                }
                if right.contains_key(a) && a != entry.address@ {
                    let j = entry_of(before, a);
                    assert(after[j].address@ == a);
                }
            }
            assert forall|a: Seq<char>| left.contains_key(a) implies left[a] == right[a] by {
                let j = entry_of(after, a);
                lemma_metadata_at(after, j);
                if j != at {
                    lemma_metadata_at(before, j);
                }
            }
            assert(left =~= right);
        }
        self.entries = entries;
    }

    /// The entries, one for each address.
    pub fn entries(&self) -> (entries: Vec<MetadataEntry>)
        ensures
            distinct(entries@),
            metadata_of(entries@) == self@,
    {
        proof {
            use_type_invariant(self);
        }
        let mut entries: Vec<MetadataEntry> = Vec::new();
        let mut i: usize = 0;
        while i < self.entries.len()
            invariant
                i <= self.entries@.len(),
                entries@ == self.entries@.take(i as int),
            decreases self.entries@.len() - i,
        {
            let entry = &self.entries[i];
            let rewards_address = match &entry.metadata.rewards_address {
                Some(rewards) => Some(rewards.clone()),
                None => None,
            };
            entries.push(
                MetadataEntry {
                    address: entry.address.clone(),
                    metadata: ContractMetadata {
                        rewards_address,
                        metadata_set: entry.metadata.metadata_set,
                    },
                },
            );
            assert(entries@ =~= self.entries@.take(i + 1));
            i = i + 1;
        }
        assert(entries@ =~= self.entries@);
        entries
    }

    /// The contracts whose metadata is set, each once, with its rewards address.
    pub fn targets(&self) -> (targets: Vec<RewardsTarget>)
        ensures
            targets_view(targets@).to_set() == eligible(self@),
            targets_view(targets@).no_duplicates(),
    {
        proof {
            use_type_invariant(self);
        }
        let n: usize = self.entries.len();
        let mut targets: Vec<RewardsTarget> = Vec::new();
        let ghost mut source: Seq<int> = Seq::empty();
        let mut i: usize = 0;
        while i < n
            invariant
                i <= n,
                n == self.entries@.len(),
                distinct(self.entries@),
                source.len() == targets@.len(),
                forall|j: int|
                    0 <= j < source.len() ==> 0 <= #[trigger] source[j] < i
                        && self.entries@[source[j]].metadata.metadata_set
                        && self.entries@[source[j]].metadata@.rewards_address == Some(
                        targets@[j].rewards_address@,
                    ) && self.entries@[source[j]].address@ == targets@[j].contract_address@,
                forall|j: int, k: int|
                    0 <= j < k < source.len() ==> #[trigger] source[j] < #[trigger] source[k],
                forall|e: int|
                    0 <= e < i && (#[trigger] self.entries@[e]).metadata.metadata_set
                        && self.entries@[e].metadata.rewards_address is Some ==> source.contains(e),
            decreases n - i,
        {
            let entry = &self.entries[i];
            if entry.metadata.metadata_set {
                match &entry.metadata.rewards_address {
                    Some(rewards) => {
                        let ghost old_source = source;
                        targets.push(
                            RewardsTarget {
                                contract_address: entry.address.clone(),
                                rewards_address: rewards.clone(),
                            },
                        );
                        proof {
                            source = source.push(i as int);
                            assert(source[source.len() - 1] == i);
                            assert forall|e: int|
                                0 <= e < i + 1 && (#[trigger] self.entries@[e]).metadata.metadata_set
                                    && self.entries@[e].metadata.rewards_address
                                    is Some implies source.contains(e) by {
                                if e < i {
                                    let j = choose|j: int|
                                        0 <= j < old_source.len() && old_source[j] == e;
                                    assert(source[j] == e);
                                }
                            }
                        }
                    },
                    None => {},
                }
            }
            i = i + 1;
        }
        proof {
            let entries = self.entries@;
            let pairs = targets_view(targets@);
            assert forall|j: int, k: int| 0 <= j < k < pairs.len() implies pairs[j] != pairs[k] by {
                assert(source[j] < source[k]);
            }
            assert forall|pair: (Seq<char>, Seq<char>)|
                pairs.to_set().contains(pair) <==> eligible(self@).contains(pair) by {
                if pairs.to_set().contains(pair) {
                    let j = choose|j: int| 0 <= j < pairs.len() && pairs[j] == pair;
                    lemma_metadata_at(entries, source[j]);
                }
                if eligible(self@).contains(pair) {
                    let e = entry_of(entries, pair.0);
                    lemma_metadata_at(entries, e);
                    let j = choose|j: int| 0 <= j < source.len() && source[j] == e;
                    lemma_metadata_at(entries, source[j]);
                    assert(pairs[j] == pair);
                }
            }
            assert(pairs.to_set() =~= eligible(self@));
        }
        targets
    }
}

} // verus!
