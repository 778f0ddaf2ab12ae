use vstd::prelude::*;
use crate::config::{ConfigSnapshot, SubnetConfig, SubnetConfigV, lookup_entry, lemma_lookup_at,
    lemma_lookup_absent, opt_str_view};
use crate::subnet_id::{SubnetID, valid_segments};

verus! {

/// A live handle bound to exactly one subnet definition; it records the
/// configuration entry it was built from so that a later access can
/// re-validate it against the current snapshot.
pub struct Connection {
    config: SubnetConfig,
}

impl View for Connection {
    type V = SubnetConfigV;

    closed spec fn view(&self) -> SubnetConfigV {
        self.config@
    }
}

impl DeepView for Connection {
    type V = SubnetConfigV;

    open spec fn deep_view(&self) -> SubnetConfigV {
        self@
    }
}

impl Connection {
    /// The configuration entry this connection was built from.
    pub fn subnet(&self) -> (r: &SubnetConfig)
        ensures
            r@ == self@,
    {
        &self.config
    }
}

/// Compares two optional address strings by content.
fn opt_str_eq(x: &Option<String>, y: &Option<String>) -> (r: bool)
    ensures
        r ==> opt_str_view(*x) == opt_str_view(*y),
        opt_str_view(*x) == opt_str_view(*y) ==> r,
{
    match x {
        None => match y {
            None => {
                return true;
            },
            Some(_) => {
                return false;
            },
        },
        Some(s) => match y {
            None => {
                return false;
            },
            Some(t) => {
                return s.eq(t);
            },
        },
    }
}

/// Compares two subnet definitions field by field.
pub fn config_eq(a: &SubnetConfig, b: &SubnetConfig) -> (r: bool)
    ensures
        r == (a@ == b@),
{
    if !a.id.equals(&b.id) {
        return false;
    }
    if a.backend != b.backend {
        return false;
    }
    if !(a.jsonrpc_endpoint == b.jsonrpc_endpoint) {
        return false;
    }
    if !opt_str_eq(&a.gateway_addr, &b.gateway_addr) {
        assert(a@.gateway != b@.gateway);
        return false;
    }
    assert(a@.gateway == b@.gateway);
    if a.accounts.len() != b.accounts.len() {
        assert(a@.accounts.len() != b@.accounts.len());
        return false;
    }
    let mut i: usize = 0;
    while i < a.accounts.len()
        invariant
            a.accounts.len() == b.accounts.len(),
            i <= a.accounts.len(),
            forall|k: int| 0 <= k < i ==> a@.accounts[k] == #[trigger] b@.accounts[k],
        decreases a.accounts.len() - i,
    {
        if !(a.accounts[i] == b.accounts[i]) {
            assert(a@.accounts[i as int] != b@.accounts[i as int]);
            return false;
        }
        i += 1;
    }
    proof {
        assert(a@.accounts =~= b@.accounts);
        assert(a@ =~= b@) by {
            assert(a@.id == b@.id);
            assert(a@.endpoint == b@.endpoint);
            assert(a@.gateway == b@.gateway);
        }
    }
    true
}

/// The connection cache: at most one connection per subnet identifier,
/// built on demand from the configuration snapshot and re-validated
/// against it on every access.
pub struct SubnetManagerPool {
    conns: Vec<Connection>,
}

impl View for SubnetManagerPool {
    type V = Seq<SubnetConfigV>;

    closed spec fn view(&self) -> Seq<SubnetConfigV> {
        self.conns.deep_view()
    }
}

impl SubnetManagerPool {
    /// No identifier appears twice and every cached entry is
    /// well-formed.
    pub open spec fn wf(&self) -> bool {
        &&& forall|i: int| 0 <= i < self@.len() ==> valid_segments(#[trigger] self@[i].id)
        &&& forall|i: int, j: int|
            0 <= i < j < self@.len() ==> #[trigger] self@[i].id != #[trigger] self@[j].id
    }

    /// An empty pool: every first access builds its connection.
    pub fn new() -> (r: SubnetManagerPool)
        ensures
            r@.len() == 0,
            r.wf(),
    {
        SubnetManagerPool { conns: Vec::new() }
    }

    /// How many connections are cached.
    pub fn count(&self) -> (r: usize)
        ensures
            r == self@.len(),
    {
        self.conns.len()
    }

    fn find_index(&self, id: &SubnetID) -> (r: Option<usize>)
        ensures
            r matches Some(i) ==> i < self@.len() && self@[i as int].id == id@ && (forall|j: int|
                0 <= j < i ==> (#[trigger] self@[j]).id != id@),
            r is None ==> forall|j: int| 0 <= j < self@.len() ==> (#[trigger] self@[j]).id != id@,
    {
        let mut i: usize = 0;
        while i < self.conns.len()
            invariant
                i <= self@.len(),
                self@.len() == self.conns@.len(),
                forall|j: int| 0 <= j < i ==> (#[trigger] self@[j]).id != id@,
            decreases self.conns.len() - i,
        {
            assert(self@[i as int] == self.conns@[i as int]@);
            if self.conns[i].config.id.equals(id) {
                return Some(i);
            }
            i += 1;
        }
        None
    }

    /// Returns the connection for the identifier, as the current
    /// snapshot defines it. A cached connection whose recorded entry
    /// still matches the snapshot is reused; a stale one is rebuilt; an
    /// identifier the snapshot does not know yields nothing and leaves
    /// no connection behind. Connections of other identifiers are never
    /// touched, so repeated requests for one identifier reuse one
    /// connection instead of building a second.
    pub fn get(&mut self, id: &SubnetID, cfg: &ConfigSnapshot) -> (r: Option<Connection>)
        requires
            old(self).wf(),
            cfg.wf(),
        ensures
            final(self).wf(),
            r matches Some(c) ==> lookup_entry(cfg@, id@) == Some(c@),
            r is None <==> lookup_entry(cfg@, id@) is None,
            lookup_entry(final(self)@, id@) == lookup_entry(cfg@, id@),
            forall|k: Seq<Seq<char>>|
                k != id@ ==> #[trigger] lookup_entry(final(self)@, k) == lookup_entry(
                    old(self)@,
                    k,
                ),
            lookup_entry(old(self)@, id@) == lookup_entry(cfg@, id@) ==> final(self)@ == old(
                self,
            )@,
    {
        let cached = self.find_index(id);
        let known = cfg.find(id);
        match known {
            None => {
                match cached {
                    None => {
                        proof {
                            lemma_lookup_absent(self@, id@);
                        }
                        None
                    },
                    Some(i) => {
                        // the snapshot no longer knows this subnet: drop
                        // the stale connection
                        proof {
                            lemma_lookup_at(self@, id@, i as int);
                        }
                        let ghost prior = self@;
                        self.conns.remove(i);
                        proof {
                            assert(self@ =~= prior.remove(i as int));
                            assert forall|j: int| 0 <= j < self@.len() implies (
                            #[trigger] self@[j]).id != id@ by {
                                if j < i {
                                    assert(self@[j] == prior[j]);
                                } else {
                                    assert(self@[j] == prior[j + 1]);
                                }
                            }
                            lemma_lookup_absent(self@, id@);
                            lemma_lookup_remove_other(prior, i as int, id@);
                        }
                        None
                    },
                }
            },
            Some(j) => {
                let ghost entry_v = cfg@[j as int];
                match cached {
                    Some(i) => {
                        proof {
                            lemma_lookup_at(self@, id@, i as int);
                        }
                        assert(self@[i as int] == self.conns@[i as int]@);
                        if config_eq(self.conns[i].subnet(), &cfg.subnets[j]) {
                            // recorded entry still matches: reuse it
                            let c = Connection { config: self.conns[i].subnet().duplicate() };
                            return Some(c);
                        }
                        // the definition changed under this identifier:
                        // rebuild the connection from the new entry
                        let ghost prior = self@;
                        self.conns.remove(i);
                        let fresh = Connection { config: cfg.subnets[j].duplicate() };
                        self.conns.push(fresh);
                        let c = Connection { config: cfg.subnets[j].duplicate() };
                        proof {
                            let mid = prior.remove(i as int);
                            assert(self@ =~= mid.push(entry_v));
                            assert forall|jj: int| 0 <= jj < mid.len() implies (
                            #[trigger] mid[jj]).id != id@ by {
                                if jj < i {
                                    assert(mid[jj] == prior[jj]);
                                } else {
                                    assert(mid[jj] == prior[jj + 1]);
                                }
                            }
                            lemma_lookup_remove_other(prior, i as int, id@);
                            lemma_lookup_push_other_keys(mid, entry_v);
                            lemma_lookup_push_self(mid, entry_v);
                        }
                        return Some(c);
                    },
                    None => {
                        // never seen: build the connection and cache it
                        let fresh = Connection { config: cfg.subnets[j].duplicate() };
                        let ghost prior = self@;
                        self.conns.push(fresh);
                        let c = Connection { config: cfg.subnets[j].duplicate() };
                        proof {
                            assert(self@ =~= prior.push(entry_v));
                            lemma_lookup_absent(prior, id@);
                            lemma_lookup_push_other_keys(prior, entry_v);
                            lemma_lookup_push_self(prior, entry_v);
                        }
                        return Some(c);
                    },
                }
            },
        }
    }
}

/// Removing one entry leaves lookups for every other identifier as they
/// were.
proof fn lemma_lookup_remove_other(s: Seq<SubnetConfigV>, i: int, id: Seq<Seq<char>>)
    requires
        0 <= i < s.len(),
    ensures
        forall|k: Seq<Seq<char>>|
            k != s[i].id ==> #[trigger] lookup_entry(s.remove(i), k) == lookup_entry(s, k),
    decreases s.len(),
{
    assert forall|k: Seq<Seq<char>>|
        k != s[i].id implies #[trigger] lookup_entry(s.remove(i), k) == lookup_entry(s, k) by {
        lemma_lookup_remove_other_one(s, i, k);
    }
}

proof fn lemma_lookup_remove_other_one(s: Seq<SubnetConfigV>, i: int, k: Seq<Seq<char>>)
    requires
        0 <= i < s.len(),
        k != s[i].id,
    ensures
        lookup_entry(s.remove(i), k) == lookup_entry(s, k),
    decreases s.len(),
{
    if i == 0 {
        assert(s.remove(0) =~= s.drop_first());
    } else {
        assert(s.remove(i)[0] == s[0]);
        if s[0].id == k {
        } else {
            lemma_lookup_remove_other_one(s.drop_first(), i - 1, k);
            assert(s.remove(i).drop_first() =~= s.drop_first().remove(i - 1));
        }
    }
}

/// Appending an entry leaves lookups for every other identifier as they
/// were.
proof fn lemma_lookup_push_other_keys(s: Seq<SubnetConfigV>, e: SubnetConfigV)
    ensures
        forall|k: Seq<Seq<char>>|
            k != e.id ==> #[trigger] lookup_entry(s.push(e), k) == lookup_entry(s, k),
{
    assert forall|k: Seq<Seq<char>>|
        k != e.id implies #[trigger] lookup_entry(s.push(e), k) == lookup_entry(s, k) by {
        lemma_lookup_push_other_one(s, e, k);
    }
}

proof fn lemma_lookup_push_other_one(s: Seq<SubnetConfigV>, e: SubnetConfigV, k: Seq<Seq<char>>)
    requires
        k != e.id,
    ensures
        lookup_entry(s.push(e), k) == lookup_entry(s, k),
    decreases s.len(),
{
    if s.len() == 0 {
        assert(s.push(e)[0] == e);
        assert(s.push(e).drop_first() =~= Seq::<SubnetConfigV>::empty());
        assert(lookup_entry(Seq::<SubnetConfigV>::empty(), k) is None);
    } else {
        assert(s.push(e)[0] == s[0]);
        if s[0].id == k {
        } else {
            lemma_lookup_push_other_one(s.drop_first(), e, k);
            assert(s.push(e).drop_first() =~= s.drop_first().push(e));
        }
    }
}

/// Appending an entry whose identifier was absent makes lookups for it
/// find exactly that entry.
proof fn lemma_lookup_push_self(s: Seq<SubnetConfigV>, e: SubnetConfigV)
    requires
        forall|j: int| 0 <= j < s.len() ==> (#[trigger] s[j]).id != e.id,
    ensures
        lookup_entry(s.push(e), e.id) == Some(e),
    decreases s.len(),
{
    if s.len() == 0 {
        assert(s.push(e)[0] == e);
    } else {
        assert(s.push(e)[0] == s[0]);
        assert(s[0].id != e.id);
        assert(s.push(e).drop_first() =~= s.drop_first().push(e));
        assert forall|j: int| 0 <= j < s.drop_first().len() implies (
        #[trigger] s.drop_first()[j]).id != e.id by {
            assert(s.drop_first()[j] == s[j + 1]);
        }
        lemma_lookup_push_self(s.drop_first(), e);
    }
}

} // verus!
