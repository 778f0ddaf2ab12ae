use vstd::prelude::*;
use crate::subnet_id::{SubnetID, valid_segments};

verus! {

/// The two mutually exclusive execution-layer protocols a subnet's
/// backend may speak.
#[derive(Clone, Copy, Debug, PartialEq, Eq, Structural)]
pub enum BackendKind {
    Fvm,
    Evm,
}

/// The content of an optional address string.
pub open spec fn opt_str_view(x: Option<String>) -> Option<Seq<char>> {
    match x {
        Some(s) => Some(s@),
        None => None,
    }
}

/// The mathematical content of one subnet definition.
#[verifier::ext_equal]
pub struct SubnetConfigV {
    pub id: Seq<Seq<char>>,
    pub backend: BackendKind,
    pub endpoint: Seq<char>,
    pub gateway: Option<Seq<char>>,
    pub accounts: Seq<Seq<char>>,
}

/// One known subnet: its identifier, which backend variant serves it,
/// where its RPC endpoint listens, the optional gateway contract
/// address, and the account addresses attached to it (the first one is
/// the default sender).
pub struct SubnetConfig {
    pub id: SubnetID,
    pub backend: BackendKind,
    pub jsonrpc_endpoint: String,
    pub gateway_addr: Option<String>,
    pub accounts: Vec<String>,
}

impl View for SubnetConfig {
    type V = SubnetConfigV;

    open spec fn view(&self) -> SubnetConfigV {
        SubnetConfigV {
            id: self.id@,
            backend: self.backend,
            endpoint: self.jsonrpc_endpoint@,
            gateway: opt_str_view(self.gateway_addr),
            accounts: self.accounts.deep_view(),
        }
    }
}

impl DeepView for SubnetConfig {
    type V = SubnetConfigV;

    open spec fn deep_view(&self) -> SubnetConfigV {
        self@
    }
}

impl SubnetConfig {
    /// A well-formed entry names a well-formed subnet.
    pub open spec fn wf(&self) -> bool {
        valid_segments(self@.id)
    }

    /// A fresh entry with the same content.
    pub fn duplicate(&self) -> (r: SubnetConfig)
        ensures
            r@ == self@,
    {
        let gateway_addr = match &self.gateway_addr {
            Some(g) => Some(g.clone()),
            None => None,
        };
        let mut accounts: Vec<String> = Vec::new();
        let mut i: usize = 0;
        while i < self.accounts.len()
            invariant
                i <= self.accounts.len(),
                accounts@.len() == i,
                forall|k: int| 0 <= k < i ==> accounts@[k]@ == #[trigger] self.accounts.deep_view()[k],
            decreases self.accounts.len() - i,
        {
            let c = self.accounts[i].clone();
            assert(c@ == self.accounts.deep_view()[i as int]);
            accounts.push(c);
            i += 1;
        }
        proof {
            assert(accounts.deep_view() =~= self.accounts.deep_view());
        }
        let r = SubnetConfig {
            id: self.id.duplicate(),
            backend: self.backend,
            jsonrpc_endpoint: self.jsonrpc_endpoint.clone(),
            gateway_addr,
            accounts,
        };
        assert(r@ == self@) by {
            assert(r@.id == self@.id);
        }
        r
    }
}

/// The first entry whose identifier matches, if any.
pub open spec fn lookup_entry(entries: Seq<SubnetConfigV>, id: Seq<Seq<char>>) -> Option<
    SubnetConfigV,
>
    decreases entries.len(),
{
    if entries.len() == 0 {
        None
    } else if entries[0].id == id {
        Some(entries[0])
    } else {
        lookup_entry(entries.drop_first(), id)
    }
}

/// If an index holds the identifier and no earlier one does, the lookup
/// lands exactly there.
pub proof fn lemma_lookup_at(entries: Seq<SubnetConfigV>, id: Seq<Seq<char>>, i: int)
    requires
        0 <= i < entries.len(),
        entries[i].id == id,
        forall|j: int| 0 <= j < i ==> entries[j].id != id,
    ensures
        lookup_entry(entries, id) == Some(entries[i]),
    decreases entries.len(),
{
    if i > 0 {
        lemma_lookup_at(entries.drop_first(), id, i - 1);
    }
}

/// If no index holds the identifier, the lookup finds nothing.
pub proof fn lemma_lookup_absent(entries: Seq<SubnetConfigV>, id: Seq<Seq<char>>)
    requires
        forall|j: int| 0 <= j < entries.len() ==> entries[j].id != id,
    ensures
        lookup_entry(entries, id) is None,
    decreases entries.len(),
{
    if entries.len() > 0 {
        lemma_lookup_absent(entries.drop_first(), id);
    }
}

/// Whatever the lookup returns sits in the sequence under the asked-for
/// identifier.
pub proof fn lemma_lookup_found(entries: Seq<SubnetConfigV>, id: Seq<Seq<char>>)
    ensures
        lookup_entry(entries, id) matches Some(e) ==> e.id == id && exists|j: int|
            0 <= j < entries.len() && entries[j] == e,
    decreases entries.len(),
{
    if entries.len() > 0 && entries[0].id != id {
        lemma_lookup_found(entries.drop_first(), id);
        if lookup_entry(entries, id) is Some {
            let e = lookup_entry(entries.drop_first(), id)->Some_0;
            let j = choose|j: int|
                0 <= j < entries.drop_first().len() && entries.drop_first()[j] == e;
            assert(entries[j + 1] == e);
        }
    }
}

/// A snapshot of the subnet definitions that a configuration reload
/// produced; entries are read, never mutated in place.
pub struct ConfigSnapshot {
    pub subnets: Vec<SubnetConfig>,
}

impl View for ConfigSnapshot {
    type V = Seq<SubnetConfigV>;

    open spec fn view(&self) -> Seq<SubnetConfigV> {
        self.subnets.deep_view()
    }
}

impl ConfigSnapshot {
    /// Entries are well-formed and no identifier appears twice.
    pub open spec fn wf(&self) -> bool {
        &&& forall|i: int| 0 <= i < self@.len() ==> valid_segments(#[trigger] self@[i].id)
        &&& forall|i: int, j: int|
            0 <= i < j < self@.len() ==> #[trigger] self@[i].id != #[trigger] self@[j].id
    }

    /// An empty snapshot: no subnet is known.
    pub fn empty() -> (r: ConfigSnapshot)
        ensures
            r@.len() == 0,
            r.wf(),
    {
        ConfigSnapshot { subnets: Vec::new() }
    }

    /// Adds one subnet definition; an entry under an identifier already
    /// present is refused so that the snapshot stays unambiguous.
    pub fn add(&mut self, entry: SubnetConfig) -> (r: bool)
        requires
            old(self).wf(),
            entry.wf(),
        ensures
            final(self).wf(),
            r ==> final(self)@ == old(self)@.push(entry@) && lookup_entry(old(self)@, entry@.id)
                is None,
            !r ==> final(self)@ == old(self)@ && lookup_entry(old(self)@, entry@.id) is Some,
    {
        let found = self.find(&entry.id);
        match found {
            Some(_) => {
                assert(self@ == old(self)@);
                false
            },
            None => {
                proof {
                    assert(self@.push(entry@).drop_last() =~= self@);
                }
                self.subnets.push(entry);
                proof {
                    assert(self.subnets.deep_view() =~= old(self)@.push(entry@));
                }
                true
            },
        }
    }

    /// Looks the identifier up, returning the index of its entry.
    pub fn find(&self, id: &SubnetID) -> (r: Option<usize>)
        ensures
            r matches Some(i) ==> i < self@.len() && self@[i as int].id == id@ && lookup_entry(
                self@,
                id@,
            ) == Some(self@[i as int]),
            r is None ==> lookup_entry(self@, id@) is None && (forall|j: int|
                0 <= j < self@.len() ==> (#[trigger] self@[j]).id != id@),
    {
        let mut i: usize = 0;
        while i < self.subnets.len()
            invariant
                i <= self@.len(),
                self@.len() == self.subnets@.len(),
                forall|j: int| 0 <= j < i ==> self@[j].id != #[trigger] id@,
            decreases self.subnets.len() - i,
        {
            assert(self@[i as int].id == self.subnets@[i as int]@.id);
            if self.subnets[i].id.equals(id) {
                proof {
                    lemma_lookup_at(self@, id@, i as int);
                }
                return Some(i);
            }
            i += 1;
        }
        proof {
            lemma_lookup_absent(self@, id@);
        }
        None
    }
}

} // verus!
