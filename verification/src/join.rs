use vstd::prelude::*;
use vstd::string::StringExecFns;

verus! {

/// The comma-joined form of a list of relation paths: the paths in order,
/// separated by single commas, with no leading or trailing separator.
pub open spec fn join_comma(paths: Seq<Seq<char>>) -> Seq<char>
    decreases paths.len(),
{
    if paths.len() == 0 {
        Seq::<char>::empty()
    } else if paths.len() == 1 {
        paths[0]
    } else {
        join_comma(paths.drop_last()) + seq![','] + paths.last()
    }
}

/// Joining a two-element list yields the first path, a comma, and the second
/// path, in that order.
pub proof fn lemma_join_comma_two(paths: Seq<Seq<char>>)
    requires
        paths.len() == 2,
    ensures
        join_comma(paths) == paths[0] + seq![','] + paths[1],
{
    assert(paths.drop_last() =~= seq![paths[0]]);
    assert(join_comma(paths.drop_last()) == paths[0]);
}

/// Joins the given paths with commas.
pub fn join_with_commas(parts: &Vec<String>) -> (r: String)
    ensures
        r@ == join_comma(parts.deep_view()),
{
    let ghost all: Seq<Seq<char>> = parts.deep_view();
    let mut out = String::new();
    proof {
        reveal_strlit(",");
    }
    let mut i: usize = 0;
    while i < parts.len()
        invariant
            i <= parts.len(),
            all == parts.deep_view(),
            out@ == join_comma(all.take(i as int)),
            ","@ == seq![','],
        decreases parts.len() - i,
    {
        if i > 0 {
            out.append(",");
        }
        out.append(parts[i].as_str());
        proof {
            let prior = all.take(i as int);
            let now = all.take(i + 1 as int);
            assert(now.drop_last() =~= prior);
            assert(now.last() == all[i as int]);
            if i == 0 {
                assert(out@ =~= join_comma(now));
            } else {
                assert(out@ == join_comma(prior) + seq![','] + all[i as int]);
            }
        }
        i = i + 1;
    }
    proof {
        assert(all.take(parts.len() as int) =~= all);
    }
    out
}

} // verus!
