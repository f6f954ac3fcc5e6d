use crate::includes::SearchIncludes;
use crate::join::join_comma;
use crate::join::join_with_commas;
use vstd::prelude::*;
use vstd::string::StringExecFns;

verus! {

/// The production API endpoint.
pub const DEFAULT_API_ENDPOINT: &'static str = "https://api.animethemes.moe";

/// The base URL under which video assets are served.
pub const DEFAULT_VIDEO_ENDPOINT: &'static str = "https://animethemes.moe/video/";

/// The decimal digit character for a value below ten.
pub open spec fn digit_char(d: int) -> char {
    if d == 0 {
        '0'
    } else if d == 1 {
        '1'
    } else if d == 2 {
        '2'
    } else if d == 3 {
        '3'
    } else if d == 4 {
        '4'
    } else if d == 5 {
        '5'
    } else if d == 6 {
        '6'
    } else if d == 7 {
        '7'
    } else if d == 8 {
        '8'
    } else {
        '9'
    }
}

/// The decimal representation of a number, most significant digit first,
/// without leading zeroes (a single zero for the number zero).
pub open spec fn dec_str(n: nat) -> Seq<char>
    decreases n,
{
    if n < 10 {
        seq![digit_char(n as int)]
    } else {
        dec_str(n / 10) + seq![digit_char((n % 10) as int)]
    }
}

/// The single-character string of one decimal digit.
fn digit_str(d: u32) -> (r: &'static str)
    requires
        d < 10,
    ensures
        r@ == seq![digit_char(d as int)],
{
    proof {
        reveal_strlit("0");
        reveal_strlit("1");
        reveal_strlit("2");
        reveal_strlit("3");
        reveal_strlit("4");
        reveal_strlit("5");
        reveal_strlit("6");
        reveal_strlit("7");
        reveal_strlit("8");
        reveal_strlit("9");
    }
    match d {
        0 => "0",
        1 => "1",
        2 => "2",
        3 => "3",
        4 => "4",
        5 => "5",
        6 => "6",
        7 => "7",
        8 => "8",
        _ => "9",
    }
}

/// Writes a numeric identifier in decimal, as it appears in a request path.
pub fn u32_to_dec(n: u32) -> (r: String)
    ensures
        r@ == dec_str(n as nat),
    decreases n,
{
    if n < 10 {
        String::from_str(digit_str(n))
    } else {
        proof {
            assert(n / 10 < n) by (nonlinear_arith)
                requires
                    n >= 10,
            ;
        }
        let mut s = u32_to_dec(n / 10);
        s.append(digit_str(n % 10));
        s
    }
}

/// The request path of a single-resource fetch: `/<endpoint>/<id>`.
pub open spec fn spec_entry_path(endpoint: Seq<char>, id: Seq<char>) -> Seq<char> {
    seq!['/'] + endpoint + seq!['/'] + id
}

/// Builds the request path of a single-resource fetch from the resource-type
/// endpoint name and the textual identifier (a slug, basename, or number).
pub fn entry_path(endpoint: &str, id: &str) -> (r: String)
    ensures
        r@ == spec_entry_path(endpoint@, id@),
{
    proof {
        reveal_strlit("/");
    }
    let mut s = String::from_str("/");
    s.append(endpoint);
    s.append("/");
    s.append(id);
    proof {
        assert(s@ =~= spec_entry_path(endpoint@, id@));
    }
    s
}

/// Builds the request path of a single-resource fetch by numeric identifier.
pub fn entry_path_u32(endpoint: &str, id: u32) -> (r: String)
    ensures
        r@ == spec_entry_path(endpoint@, dec_str(id as nat)),
{
    let id_text = u32_to_dec(id);
    entry_path(endpoint, id_text.as_str())
}

/// The query parameters of a single-resource fetch: the comma-joined relation
/// paths under `include`, or nothing at all when no relation is requested.
pub open spec fn spec_fetch_query(paths: Seq<Seq<char>>) -> Seq<(Seq<char>, Seq<char>)> {
    if paths.len() == 0 {
        Seq::<(Seq<char>, Seq<char>)>::empty()
    } else {
        seq![("include"@, join_comma(paths))]
    }
}

/// Builds the query parameters of a single-resource fetch from the relation
/// paths the caller selected.
pub fn fetch_query(paths: &Vec<String>) -> (r: Vec<(String, String)>)
    ensures
        r.deep_view() == spec_fetch_query(paths.deep_view()),
{
    let mut q: Vec<(String, String)> = Vec::new();
    if paths.len() > 0 {
        q.push((String::from_str("include"), join_with_commas(paths)));
    }
    proof {
        assert(q.deep_view() =~= spec_fetch_query(paths.deep_view()));
    }
    q
}

/// The query parameters of an aggregate search call: the free-text query under
/// `q`, one `includes[<type>]` parameter per resource type with a non-empty
/// selection, and the comma-joined field selection under `fields[search]` when
/// it is non-empty.
pub open spec fn spec_search_query(
    query: Seq<char>,
    fields: Seq<Seq<char>>,
    selection: SearchIncludes,
) -> Seq<(Seq<char>, Seq<char>)> {
    seq![("q"@, query)] + selection.spec_indo_includes() + (if fields.len() == 0 {
        Seq::<(Seq<char>, Seq<char>)>::empty()
    } else {
        seq![("fields[search]"@, join_comma(fields))]
    })
}

/// Builds the query parameters of an aggregate search call.
pub fn search_query(query: &str, fields: &Vec<String>, selection: SearchIncludes) -> (r: Vec<
    (String, String),
>)
    ensures
        r.deep_view() == spec_search_query(query@, fields.deep_view(), selection),
{
    let mut q: Vec<(String, String)> = Vec::new();
    q.push((String::from_str("q"), String::from_str(query)));
    proof {
        assert(q.deep_view() =~= seq![("q"@, query@)]);
    }
    let mut indo = selection.indo_includes();
    q.append(&mut indo);
    proof {
        assert(q.deep_view() =~= seq![("q"@, query@)] + selection.spec_indo_includes());
    }
    if fields.len() > 0 {
        q.push((String::from_str("fields[search]"), join_with_commas(fields)));
    }
    proof {
        assert(q.deep_view() =~= spec_search_query(query@, fields.deep_view(), selection));
    }
    q
}

} // verus!
