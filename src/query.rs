use vstd::prelude::*;
use vstd::string::*;

verus! {

/// The words of `ws` in order, with `+` between each two.
pub open spec fn joined(ws: Seq<Seq<char>>) -> Seq<char>
    decreases ws.len(),
{
    if ws.len() == 0 {
        Seq::empty()
    } else if ws.len() == 1 {
        ws[0]
    } else {
        joined(ws.drop_last()) + seq!['+'] + ws.last()
    }
}

/// The characters of each word of a dictionary.
pub open spec fn words_of(dict: Seq<String>) -> Seq<Seq<char>> {
    dict.map_values(|w: String| w@)
}

/// The query of sweep step `i`: the first `i + 1` words, joined.
pub open spec fn spec_query(ws: Seq<Seq<char>>, i: int) -> Seq<char> {
    joined(ws.take(i + 1))
}

/// The path that asks the server for the terms of `query`.
pub open spec fn spec_uri(query: Seq<char>) -> Seq<char> {
    "/query?terms="@ + query
}

/// Every query of a sweep over `dict`, in step order.
pub fn build_queries(dict: &Vec<String>) -> (r: Vec<String>)
    ensures
        r.len() == dict.len(),
        forall|i: int| 0 <= i < r.len() ==> #[trigger] r[i]@ == spec_query(words_of(dict@), i),
{
    let ghost ws = words_of(dict@);
    let mut r: Vec<String> = Vec::new();
    if dict.len() == 0 {
        return r;
    }
    let mut cur: String = dict[0].clone();
    proof {
        assert(ws.take(1) =~= seq![ws[0]]);
    }
    r.push(cur.clone());
    let mut i: usize = 1;
    while i < dict.len()
        invariant
            1 <= i <= dict.len(),
            ws == words_of(dict@),
            r.len() == i,
            cur@ == spec_query(ws, i - 1),
            forall|j: int| 0 <= j < r.len() ==> #[trigger] r[j]@ == spec_query(ws, j),
        decreases dict.len() - i,
    {
        proof {
            reveal_strlit("+");
            assert(ws.take(i + 1).drop_last() =~= ws.take(i as int));
        }
        cur = cur.concat("+").concat(dict[i].as_str());
        r.push(cur.clone());
        i = i + 1;
    }
    r
}

/// Each query is the one before it, then `+` and the next word: query `i`
/// holds the first `i + 1` words, in order and as written.
pub proof fn lemma_query_extends(ws: Seq<Seq<char>>, i: int)
    requires
        0 <= i,
        i + 1 < ws.len(),
    ensures
        spec_query(ws, 0) == ws[0],
        spec_query(ws, i + 1) == spec_query(ws, i) + seq!['+'] + ws[i + 1],
{
    assert(ws.take(i + 2).drop_last() =~= ws.take(i + 1));
}

/// The path of the request that a sweep step sends.
pub fn query_uri(query: &str) -> (r: String)
    ensures
        r@ == spec_uri(query@),
{
    String::from_str("/query?terms=").concat(query)
}

} // verus!
