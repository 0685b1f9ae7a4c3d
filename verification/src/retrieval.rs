//! The retrieval tool: ranking an organization's indexed rows by their
//! distance to the query and joining the nearest snippets into one text.
//!
//! Distances are fixed-point integers, scaled by the caller from whatever
//! metric the store computes; only their order matters here.  Embedding the
//! query and scoring the rows against it are the collaborators' work: this
//! module ranks and joins what they hand it.

use vstd::prelude::*;
use vstd::string::*;
use vstd::seq_lib::group_to_multiset_ensures;
use vstd::multiset::group_multiset_axioms;
use crate::agent::ToolDescriptor;

verus! {

/// The fixed number of snippets one retrieval may return.
pub const DEFAULT_RETRIEVAL_LIMIT: usize = 10;

/// One row of the indexed knowledge base, scored against the query at hand.
#[derive(Debug)]
pub struct IndexedRow {
    pub organization_id: i32,
    pub distance: u64,
    pub data: String,
}

impl Clone for IndexedRow {
    fn clone(&self) -> (r: Self)
        ensures
            r == *self,
    {
        IndexedRow {
            organization_id: self.organization_id,
            distance: self.distance,
            data: self.data.clone(),
        }
    }
}

/// The rows that belong to this organization, in store order.
pub open spec fn matching(rows: Seq<IndexedRow>, organization_id: i32) -> Seq<IndexedRow> {
    rows.filter(|r: IndexedRow| r.organization_id == organization_id)
}

/// Non-decreasing distance from front to back.
pub open spec fn sorted_by_distance(s: Seq<IndexedRow>) -> bool {
    forall|a: int, b: int| 0 <= a < b < s.len() ==> s[a].distance <= s[b].distance
}

/// What a nearest-neighbour search owes: as many rows as the store has for
/// the organization, cut at `limit`; ordered by non-decreasing distance;
/// drawn from the organization's rows without inventing or repeating any; and
/// no row that was left behind lies nearer than one that was returned.
pub open spec fn ranked_result(
    rows: Seq<IndexedRow>,
    organization_id: i32,
    limit: int,
    out: Seq<IndexedRow>,
) -> bool {
    &&& out.len() == vstd::math::min(limit, matching(rows, organization_id).len() as int)
    &&& sorted_by_distance(out)
    &&& forall|y: IndexedRow| #[trigger]
        out.to_multiset().count(y) <= matching(rows, organization_id).to_multiset().count(y)
    &&& forall|i: int, y: IndexedRow|
        #![trigger out[i], matching(rows, organization_id).to_multiset().count(y)]
        0 <= i < out.len() && matching(rows, organization_id).to_multiset().count(y)
            > out.to_multiset().count(y) ==> out[i].distance <= y.distance
}

/// Nearest-neighbour search over scored rows: the at most `limit` rows of
/// this organization that lie nearest to the query, nearest first.
pub fn search(rows: &Vec<IndexedRow>, organization_id: i32, limit: usize) -> (out: Vec<IndexedRow>)
    ensures
        ranked_result(rows@, organization_id, limit as int, out@),
{
    let ghost m = matching(rows@, organization_id);
    let mut pool: Vec<IndexedRow> = Vec::new();
    let mut i: usize = 0;
    while i < rows.len()
        invariant
            i <= rows.len(),
            pool@ == matching(rows@.take(i as int), organization_id),
        decreases rows.len() - i,
    {
        proof {
            reveal(Seq::filter);
            assert(rows@.take(i as int + 1).drop_last() =~= rows@.take(i as int));
            assert(rows@.take(i as int + 1).last() == rows@[i as int]);
        }
        if rows[i].organization_id == organization_id {
            pool.push(rows[i].clone());
        }
        i = i + 1;
    }
    proof {
        assert(rows@.take(rows@.len() as int) =~= rows@);
        broadcast use group_to_multiset_ensures;

    }
    let mut out: Vec<IndexedRow> = Vec::new();
    while out.len() < limit && pool.len() > 0
        invariant
            out@.len() <= limit,
            out@.to_multiset().add(pool@.to_multiset()) == m.to_multiset(),
            out@.len() + pool@.len() == m.len(),
            sorted_by_distance(out@),
            forall|a: int, b: int|
                #![trigger out@[a], pool@[b]]
                0 <= a < out@.len() && 0 <= b < pool@.len() ==> out@[a].distance
                    <= pool@[b].distance,
        decreases pool.len(),
    {
        let mut best: usize = 0;
        let mut j: usize = 1;
        while j < pool.len()
            invariant
                pool.len() > 0,
                best < j <= pool.len(),
                forall|k: int|
                    0 <= k < j ==> pool@[best as int].distance <= #[trigger] pool@[k].distance,
            decreases pool.len() - j,
        {
            if pool[j].distance < pool[best].distance {
                best = j;
            }
            j = j + 1;
        }
        let ghost old_pool = pool@;
        let ghost old_out = out@;
        let ghost ch = pool@[best as int];
        let chosen = pool.remove(best);
        out.push(chosen);
        proof {
            broadcast use group_to_multiset_ensures;
            broadcast use group_multiset_axioms;

            assert(old_pool.contains(ch));
            assert(old_pool.to_multiset().count(ch) > 0);
            assert(pool@.to_multiset() =~= old_pool.to_multiset().remove(ch));
            assert(out@.to_multiset() =~= old_out.to_multiset().insert(ch));
            assert forall|y: IndexedRow|
                out@.to_multiset().add(pool@.to_multiset()).count(y) == m.to_multiset().count(
                    y,
                ) by {
                assert(old_out.to_multiset().add(old_pool.to_multiset()).count(y)
                    == m.to_multiset().count(y));
            }
            assert(out@.to_multiset().add(pool@.to_multiset()) =~= m.to_multiset());
            assert forall|b: int| 0 <= b < pool@.len() implies pool@[b] == (if b < best as int {
                old_pool[b]
            } else {
                old_pool[b + 1]
            }) by {}
            assert forall|a: int, b: int| 0 <= a < b < out@.len() implies out@[a].distance
                <= out@[b].distance by {
                if b == out@.len() - 1 {
                    assert(out@[a] == old_out[a]);
                    assert(out@[b] == ch);
                }
            }
            assert forall|a: int, b: int|
                0 <= a < out@.len() && 0 <= b < pool@.len() implies out@[a].distance
                <= pool@[b].distance by {
                let prior: int = if b < best as int {
                    b
                } else {
                    b + 1
                };
                assert(pool@[b] == old_pool[prior]);
                assert(ch.distance <= old_pool[prior].distance);
                if a < out@.len() - 1 {
                    assert(out@[a] == old_out[a]);
                } else {
                    assert(out@[a] == ch);
                }
            }
        }
    }
    proof {
        broadcast use group_to_multiset_ensures;
        broadcast use group_multiset_axioms;

        assert forall|y: IndexedRow| #[trigger]
            out@.to_multiset().count(y) <= m.to_multiset().count(y) by {
            assert(out@.to_multiset().add(pool@.to_multiset()).count(y) == m.to_multiset().count(
                y,
            ));
        }
        assert forall|i: int, y: IndexedRow|
            #![trigger out@[i], m.to_multiset().count(y)]
            0 <= i < out@.len() && m.to_multiset().count(y) > out@.to_multiset().count(
                y,
            ) implies out@[i].distance <= y.distance by {
            assert(out@.to_multiset().add(pool@.to_multiset()).count(y) == m.to_multiset().count(
                y,
            ));
            assert(pool@.to_multiset().count(y) > 0);
            assert(pool@.contains(y));
            let b = choose|b: int| 0 <= b < pool@.len() && pool@[b] == y;
            assert(out@[i].distance <= pool@[b].distance);
        }
    }
    out
}

/// The snippet texts of ranked rows, in rank order.
pub open spec fn data_of(rows: Seq<IndexedRow>) -> Seq<Seq<char>> {
    rows.map_values(|r: IndexedRow| r.data@)
}

/// The given texts joined with a newline between neighbours; empty when
/// there is none.
pub open spec fn join_nl(items: Seq<Seq<char>>) -> Seq<char>
    decreases items.len(),
{
    if items.len() == 0 {
        Seq::empty()
    } else if items.len() == 1 {
        items[0]
    } else {
        join_nl(items.drop_last()) + "\n"@ + items.last()
    }
}

/// Joins texts with newline separators.
pub fn join_lines(items: &Vec<String>) -> (r: String)
    ensures
        r@ == join_nl(items.deep_view()),
{
    let mut r = String::new();
    let mut i: usize = 0;
    while i < items.len()
        invariant
            i <= items.len(),
            r@ == join_nl(items.deep_view().take(i as int)),
        decreases items.len() - i,
    {
        if i > 0 {
            r.append("\n");
        }
        r.append(items[i].as_str());
        proof {
            let dv = items.deep_view();
            assert(dv[i as int] == items@[i as int]@);
            assert(dv.take(i as int + 1).drop_last() =~= dv.take(i as int));
            assert(dv.take(i as int + 1).last() == dv[i as int]);
            if i == 0 {
                assert(Seq::<char>::empty() + dv[0] =~= dv[0]);
            }
        }
        i = i + 1;
    }
    proof {
        assert(items.deep_view().take(items@.len() as int) =~= items.deep_view());
    }
    r
}

/// The retrieval tool bound to one organization: ranks the scored rows the
/// store handed back and joins the nearest snippets into the tool's output.
#[derive(Debug)]
pub struct GetInfoTool {
    pub name: String,
    pub description: String,
    pub organisation_id: i32,
    pub limit: usize,
}

impl GetInfoTool {
    pub fn new(organisation_id: i32) -> (r: Self)
        ensures
            r.name@ == "Get_Info"@,
            r.description@
                == "This tool can get information from a Knolage database, the input is a query"@,
            r.organisation_id == organisation_id,
            r.limit == DEFAULT_RETRIEVAL_LIMIT,
    {
        Self {
            name: "Get_Info".to_owned(),
            description:
                "This tool can get information from a Knolage database, the input is a query".to_owned(),
            organisation_id,
            limit: DEFAULT_RETRIEVAL_LIMIT,
        }
    }

    pub fn name(&self) -> (r: String)
        ensures
            r@ == self.name@,
    {
        self.name.clone()
    }

    pub fn description(&self) -> (r: String)
        ensures
            r@ == self.description@,
    {
        self.description.clone()
    }

    /// The registry entry describing this tool to the model.
    pub fn descriptor(&self) -> (r: ToolDescriptor)
        ensures
            r.name@ == self.name@,
            r.description@ == self.description@,
    {
        ToolDescriptor { name: self.name.clone(), description: self.description.clone() }
    }

    /// The tool's answer for one query: the nearest snippets of this
    /// organization joined by newlines, the empty string when the store holds
    /// no matching row.
    pub fn call(&self, scored: &Vec<IndexedRow>) -> (out: String)
        ensures
            exists|ranked: Seq<IndexedRow>|
                ranked_result(scored@, self.organisation_id, self.limit as int, ranked) && out@
                    == join_nl(data_of(ranked)),
            matching(scored@, self.organisation_id).len() == 0 ==> out@ == Seq::<char>::empty(),
    {
        let ranked = search(scored, self.organisation_id, self.limit);
        let mut texts: Vec<String> = Vec::new();
        let mut i: usize = 0;
        while i < ranked.len()
            invariant
                i <= ranked.len(),
                texts@.len() == i,
                forall|k: int| 0 <= k < i ==> #[trigger] texts@[k]@ == ranked@[k].data@,
            decreases ranked.len() - i,
        {
            let ghost old_texts = texts@;
            texts.push(ranked[i].data.clone());
            proof {
                assert forall|k: int| 0 <= k < i as int + 1 implies #[trigger] texts@[k]@
                    == ranked@[k].data@ by {
                    if k < i as int {
                        assert(texts@[k] == old_texts[k]);
                    }
                }
            }
            i = i + 1;
        }
        let out = join_lines(&texts);
        proof {
            assert forall|k: int| 0 <= k < texts@.len() implies texts.deep_view()[k] == data_of(
                ranked@,
            )[k] by {
                assert(texts.deep_view()[k] == texts@[k]@);
                assert(data_of(ranked@)[k] == ranked@[k].data@);
            }
            assert(texts.deep_view() =~= data_of(ranked@));
            assert(ranked_result(scored@, self.organisation_id, self.limit as int, ranked@) && out@
                == join_nl(data_of(ranked@)));
        }
        out
    }
}

} // verus!
