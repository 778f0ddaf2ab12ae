use vstd::prelude::*;
use crate::amount::TokenAmount;
use crate::config::{ConfigSnapshot, SubnetConfigV};
use crate::subnet_id::SubnetID;

verus! {

/// One balance question: which address to ask about on which subnet.
pub struct BalanceQuery {
    pub subnet: SubnetID,
    pub address: String,
}

/// What one backend call came back with: the balance, or the backend's
/// failure text.
pub struct BalanceOutcome {
    pub subnet: SubnetID,
    pub address: String,
    pub result: Result<TokenAmount, String>,
}

/// One line of the aggregated answer.
#[derive(Debug)]
pub enum BalanceStatus {
    Available(TokenAmount),
    Failed(String),
}

/// The aggregated answer keeps one report per queried subnet.
#[derive(Debug)]
pub struct BalanceReport {
    pub subnet: SubnetID,
    pub address: String,
    pub status: BalanceStatus,
}

/// The queries a balance listing asks: one per configured subnet that
/// lists an account, for its default (first) account, in snapshot
/// order.
pub open spec fn balance_plan(entries: Seq<SubnetConfigV>) -> Seq<(Seq<Seq<char>>, Seq<char>)>
    decreases entries.len(),
{
    if entries.len() == 0 {
        Seq::empty()
    } else {
        balance_plan(entries.drop_last()) + (if entries.last().accounts.len() > 0 {
            seq![(entries.last().id, entries.last().accounts[0])]
        } else {
            Seq::empty()
        })
    }
}

/// The content of a query list.
pub open spec fn queries_view(qs: Seq<BalanceQuery>) -> Seq<(Seq<Seq<char>>, Seq<char>)> {
    Seq::new(qs.len(), |i: int| (qs[i].subnet@, qs[i].address@))
}

/// Plans the balance queries for the current snapshot.
pub fn plan_balance_queries(cfg: &ConfigSnapshot) -> (r: Vec<BalanceQuery>)
    ensures
        queries_view(r@) == balance_plan(cfg@),
{
    let mut out: Vec<BalanceQuery> = Vec::new();
    let mut i: usize = 0;
    proof {
        assert(cfg@.subrange(0, 0) =~= Seq::<SubnetConfigV>::empty());
        assert(queries_view(out@) =~= balance_plan(cfg@.subrange(0, 0)));
    }
    while i < cfg.subnets.len()
        invariant
            i <= cfg.subnets.len(),
            cfg@.len() == cfg.subnets@.len(),
            queries_view(out@) == balance_plan(cfg@.subrange(0, i as int)),
        decreases cfg.subnets.len() - i,
    {
        let ghost prefix = cfg@.subrange(0, i as int);
        assert(cfg@[i as int] == cfg.subnets@[i as int]@);
        if cfg.subnets[i].accounts.len() > 0 {
            let q = BalanceQuery {
                subnet: cfg.subnets[i].id.duplicate(),
                address: cfg.subnets[i].accounts[0].clone(),
            };
            out.push(q);
        }
        proof {
            let next = cfg@.subrange(0, i + 1);
            assert(next.drop_last() =~= prefix);
            assert(next.last() == cfg@[i as int]);
            assert(queries_view(out@) =~= balance_plan(next));
        }
        i += 1;
    }
    proof {
        assert(cfg@.subrange(0, cfg.subnets@.len() as int) =~= cfg@);
    }
    out
}

/// Combines the per-subnet outcomes into one listing. A failed backend
/// call costs only its own line: every other subnet's balance is still
/// reported, and the failed one carries the backend's failure text
/// instead of a balance.
pub fn aggregate_balances(outcomes: &Vec<BalanceOutcome>) -> (r: Vec<BalanceReport>)
    ensures
        r@.len() == outcomes@.len(),
        forall|i: int|
            0 <= i < outcomes@.len() ==> {
                &&& (#[trigger] r@[i]).subnet@ == outcomes@[i].subnet@
                &&& r@[i].address@ == outcomes@[i].address@
                &&& (outcomes@[i].result matches Ok(a) ==> r@[i].status matches
                    BalanceStatus::Available(b) && b == a)
                &&& (outcomes@[i].result matches Err(m) ==> r@[i].status matches
                    BalanceStatus::Failed(f) && f@ == m@)
            },
{
    let mut out: Vec<BalanceReport> = Vec::new();
    let mut i: usize = 0;
    while i < outcomes.len()
        invariant
            i <= outcomes@.len(),
            out@.len() == i,
            forall|k: int|
                0 <= k < i ==> {
                    &&& (#[trigger] out@[k]).subnet@ == outcomes@[k].subnet@
                    &&& out@[k].address@ == outcomes@[k].address@
                    &&& (outcomes@[k].result matches Ok(a) ==> out@[k].status matches
                        BalanceStatus::Available(b) && b == a)
                    &&& (outcomes@[k].result matches Err(m) ==> out@[k].status matches
                        BalanceStatus::Failed(f) && f@ == m@)
                },
        decreases outcomes.len() - i,
    {
        let o = &outcomes[i];
        let status = match &o.result {
            Ok(a) => BalanceStatus::Available(*a),
            Err(m) => BalanceStatus::Failed(m.clone()),
        };
        out.push(BalanceReport { subnet: o.subnet.duplicate(), address: o.address.clone(), status });
        i += 1;
    }
    out
}

} // verus!
