//! The serving side of the routing actor: queries taken from its queue are
//! answered in arrival order, one reply each.
use vstd::prelude::*;
use crate::route::{RouteEntry, route_model};
use crate::subnet::{LocalAddr, SubnetTable};

verus! {

/// One routing query: an identifier chosen by the asker, and the proxy's
/// outbound address when it asked.
#[derive(Clone, Copy, Debug, PartialEq, Eq, Structural)]
pub struct Query {
    pub id: u64,
    pub addr: LocalAddr,
}

/// The answer to the query with the same identifier.
#[derive(Clone, Debug)]
pub struct Reply {
    pub id: u64,
    pub route: Vec<RouteEntry>,
}

/// Whether `r` is the table's answer to `q`.
pub open spec fn answers(table: SubnetTable, q: Query, r: Reply) -> bool {
    r.id == q.id && table.route_for(q.addr, route_model(r.route@))
}

/// Answers one query.
pub fn answer(table: &SubnetTable, q: Query) -> (r: Reply)
    requires
        table.wf(),
    ensures
        answers(*table, q, r),
{
    Reply { id: q.id, route: table.resolve(q.addr) }
}

/// Answers a batch of queries taken from the queue, in their order: reply
/// `i` answers query `i`.
pub fn answer_all(table: &SubnetTable, queries: &Vec<Query>) -> (r: Vec<Reply>)
    requires
        table.wf(),
    ensures
        r@.len() == queries@.len(),
        forall|i: int| 0 <= i < queries@.len() ==> answers(*table, queries@[i], #[trigger] r@[i]),
{
    let mut replies: Vec<Reply> = Vec::new();
    let mut i: usize = 0;
    while i < queries.len()
        invariant
            table.wf(),
            i <= queries@.len(),
            replies@.len() == i,
            forall|j: int| 0 <= j < i ==> answers(*table, queries@[j], #[trigger] replies@[j]),
        decreases queries@.len() - i,
    {
        let reply = answer(table, queries[i]);
        replies.push(reply);
        i = i + 1;
    }
    replies
}

/// Among queries with distinct identifiers, each one's identifier is
/// carried by exactly one of the replies that `answer_all` gives: its own.
pub proof fn lemma_one_reply_each(table: SubnetTable, queries: Seq<Query>, replies: Seq<Reply>)
    requires
        replies.len() == queries.len(),
        forall|i: int| 0 <= i < queries.len() ==> answers(table, queries[i], #[trigger] replies[i]),
        forall|i: int, j: int|
            0 <= i < queries.len() && 0 <= j < queries.len() && i != j ==> #[trigger] queries[i].id
                != #[trigger] queries[j].id,
    ensures
        forall|i: int, j: int|
            0 <= i < queries.len() && 0 <= j < replies.len() ==> (#[trigger] replies[j].id
                == #[trigger] queries[i].id <==> i == j),
{
    assert forall|i: int, j: int|
        0 <= i < queries.len() && 0 <= j < replies.len() implies (#[trigger] replies[j].id
        == #[trigger] queries[i].id <==> i == j) by {
        assert(answers(table, queries[j], replies[j]));
    }
}

} // verus!
