//! Track query construction: the filter parameters the interface collects,
//! and the relational query text and parameter list built from them.

use vstd::prelude::*;
use vstd::string::StringExecFns;

verus! {

broadcast use vstd::string::group_string_axioms;

/// The filters of one track query: optional title, artist and location
/// substrings, an optional tempo range, and a row limit.
#[derive(Debug, Clone)]
pub struct QueryParams<'a> {
    pub limit: usize,
    pub title: Option<&'a str>,
    pub artist: Option<&'a str>,
    pub bpm_min: Option<i64>,
    pub bpm_max: Option<i64>,
    pub location: Option<&'a str>,
}

impl<'a> Default for QueryParams<'a> {
    /// No filters, and at most a hundred rows.
    fn default() -> (q: QueryParams<'a>)
        ensures
            q.limit == 100,
            q.title is None,
            q.artist is None,
            q.bpm_min is None,
            q.bpm_max is None,
            q.location is None,
    {
        QueryParams {
            limit: 100,
            title: None,
            artist: None,
            bpm_min: None,
            bpm_max: None,
            location: None,
        }
    }
}

/// Relies on char::is_whitespace: whether the character has the White_Space
/// property, a function of the character alone.
pub uninterp spec fn spec_is_whitespace(c: char) -> bool;

/// Relies on char::is_whitespace, named by `spec_is_whitespace`.
#[verifier::external_body]
fn is_whitespace_char(c: char) -> (r: bool)
    ensures
        r == spec_is_whitespace(c),
{
    c.is_whitespace()
}

/// Relies on String::push: appends exactly the one character.
#[verifier::external_body]
fn push_char(s: &mut String, c: char)
    ensures
        final(s)@ == old(s)@.push(c),
{
    s.push(c);
}

/// `s` with every run of whitespace between words replaced by one `%`, and
/// leading and trailing whitespace dropped.
pub open spec fn spec_squash(s: Seq<char>) -> Seq<char> {
    spec_squash_from(s, 0, Seq::empty(), false)
}

/// The squash of `s` from index `i` on, appended to `out`; `pend` records
/// that a separator is owed before the next word character.
pub open spec fn spec_squash_from(s: Seq<char>, i: int, out: Seq<char>, pend: bool) -> Seq<char>
    decreases s.len() - i,
{
    if i < 0 || i >= s.len() {
        out
    } else if spec_is_whitespace(s[i]) {
        spec_squash_from(s, i + 1, out, pend || out.len() > 0)
    } else {
        let out2 = if pend {
            out.push('%').push(s[i])
        } else {
            out.push(s[i])
        };
        spec_squash_from(s, i + 1, out2, false)
    }
}

/// Collapses whitespace runs to single `%` separators, exactly as
/// `spec_squash` states it.
#[verifier::loop_isolation(false)]
pub fn squash_whitespace(s: &str) -> (r: String)
    ensures
        r@ == spec_squash(s@),
{
    let n = s.unicode_len();
    let mut out = String::new();
    let mut pend = false;
    let mut i: usize = 0;
    while i < n
        invariant
            i <= n,
            spec_squash_from(s@, i as int, out@, pend) == spec_squash(s@),
        decreases n - i,
    {
        let c = s.get_char(i);
        if is_whitespace_char(c) {
            if !out.as_str().is_empty() {
                pend = true;
            }
        } else {
            if pend {
                push_char(&mut out, '%');
            }
            push_char(&mut out, c);
            pend = false;
        }
        i = i + 1;
    }
    out
}

/// The digit character of a value below ten.
pub open spec fn spec_dec_digit(d: int) -> char {
    if d == 0 {
        '0'
    } else if d == 1 {
        '1'
    } else if d == 2 {
        '2'
    } else if d == 3 {
        '3'
    } else if d == 4 {
        '4'
    } else if d == 5 {
        '5'
    } else if d == 6 {
        '6'
    } else if d == 7 {
        '7'
    } else if d == 8 {
        '8'
    } else {
        '9'
    }
}

/// The decimal numeral of a non-negative value, most significant digit
/// first, with no leading zeros.
pub open spec fn spec_dec(v: int) -> Seq<char>
    recommends
        v >= 0,
    decreases v,
{
    if v < 10 {
        seq![spec_dec_digit(v)]
    } else {
        spec_dec(v / 10).push(spec_dec_digit(v % 10))
    }
}

/// The decimal numeral of a signed value: a minus sign before the numeral
/// of the magnitude where it is negative.
pub open spec fn spec_dec_i64(v: int) -> Seq<char> {
    if v < 0 {
        seq!['-'] + spec_dec(-v)
    } else {
        spec_dec(v)
    }
}

/// Appends the decimal numeral of `v` to `out`.
fn push_dec_u64(out: &mut String, v: u64)
    ensures
        final(out)@ == old(out)@ + spec_dec(v as int),
    decreases v,
{
    if v < 10 {
        let d = dec_digit(v);
        push_char(out, d);
        proof {
            assert(out@ =~= old(out)@ + spec_dec(v as int));
        }
    } else {
        push_dec_u64(out, v / 10);
        let d = dec_digit(v % 10);
        push_char(out, d);
        proof {
            assert(out@ =~= old(out)@ + spec_dec(v as int));
        }
    }
}

/// The digit character of `v`, which is below ten.
fn dec_digit(v: u64) -> (c: char)
    requires
        v < 10,
    ensures
        c == spec_dec_digit(v as int),
{
    if v == 0 {
        '0'
    } else if v == 1 {
        '1'
    } else if v == 2 {
        '2'
    } else if v == 3 {
        '3'
    } else if v == 4 {
        '4'
    } else if v == 5 {
        '5'
    } else if v == 6 {
        '6'
    } else if v == 7 {
        '7'
    } else if v == 8 {
        '8'
    } else {
        '9'
    }
}

/// The decimal numeral of a non-negative value as a string.
pub fn dec_u64(v: u64) -> (r: String)
    ensures
        r@ == spec_dec(v as int),
{
    let mut out = String::new();
    push_dec_u64(&mut out, v);
    proof {
        assert(Seq::<char>::empty() + spec_dec(v as int) =~= spec_dec(v as int));
    }
    out
}

/// The decimal numeral of a signed value as a string.
pub fn dec_i64(v: i64) -> (r: String)
    ensures
        r@ == spec_dec_i64(v as int),
{
    if v >= 0 {
        dec_u64(v as u64)
    } else {
        let m: u64 = ((-(v + 1)) as u64) + 1;
        let mut out = String::new();
        push_char(&mut out, '-');
        push_dec_u64(&mut out, m);
        proof {
            assert(Seq::<char>::empty().push('-') =~= seq!['-']);
            assert(seq!['-'] + spec_dec(m as int) =~= spec_dec_i64(v as int));
        }
        out
    }
}

/// The filter clauses a query selects, in their fixed order.
pub open spec fn spec_where_parts(q: QueryParams<'_>) -> Seq<Seq<char>> {
    let s0 = Seq::<Seq<char>>::empty();
    let s1 = if q.title is Some {
        s0.push("(LOWER( name ) LIKE '%' || (?) || '%')"@)
    } else {
        s0
    };
    let s2 = if q.artist is Some {
        s1.push("(LOWER( artist ) LIKE '%' || (?) || '%')"@)
    } else {
        s1
    };
    let s3 = if q.bpm_min is Some {
        s2.push("( bpm >= (?) )"@)
    } else {
        s2
    };
    let s4 = if q.bpm_max is Some {
        s3.push("( bpm <= (?) )"@)
    } else {
        s3
    };
    if q.location is Some {
        s4.push("(LOWER( location ) LIKE '%' || (?) || '%')"@)
    } else {
        s4
    }
}

/// `parts` joined with `sep` between neighbours.
pub open spec fn spec_join(parts: Seq<Seq<char>>, sep: Seq<char>) -> Seq<char>
    decreases parts.len(),
{
    if parts.len() == 0 {
        Seq::empty()
    } else if parts.len() == 1 {
        parts[0]
    } else {
        spec_join(parts.drop_last(), sep) + sep + parts.last()
    }
}

/// The query text built for `q`: the selected filter clauses joined with
/// `AND` behind `WHERE` — or no `WHERE` at all without filters — and a row
/// limit placeholder.
pub open spec fn spec_tracks_query(q: QueryParams<'_>) -> Seq<char> {
    let parts = spec_where_parts(q);
    let wheres = if parts.len() == 0 {
        Seq::<char>::empty()
    } else {
        "WHERE "@ + spec_join(parts, " AND "@)
    };
    "SELECT * FROM tracks "@ + wheres + " LIMIT (?);"@
}

/// The parameter texts of the selected filters, in placeholder order: the
/// substring filters with their whitespace runs collapsed to `%`, and the
/// tempo bounds as numerals.
pub open spec fn spec_filter_params(q: QueryParams<'_>) -> Seq<Seq<char>> {
    let s0 = Seq::<Seq<char>>::empty();
    let s1 = match q.title {
        Some(t) => s0.push(spec_squash(t@)),
        None => s0,
    };
    let s2 = match q.artist {
        Some(t) => s1.push(spec_squash(t@)),
        None => s1,
    };
    let s3 = match q.bpm_min {
        Some(b) => s2.push(spec_dec_i64(b as int)),
        None => s2,
    };
    let s4 = match q.bpm_max {
        Some(b) => s3.push(spec_dec_i64(b as int)),
        None => s3,
    };
    match q.location {
        Some(t) => s4.push(spec_squash(t@)),
        None => s4,
    }
}

/// The parameter texts bound to the query's placeholders: the filter
/// parameters, and the row limit as a numeral last.
pub open spec fn spec_query_params(q: QueryParams<'_>) -> Seq<Seq<char>> {
    spec_filter_params(q).push(spec_dec(q.limit as int))
}

/// Selects the filter clauses of `q`, in their fixed order, beside their
/// parameter texts.
fn select_filters<'a, 'b>(q: &'b QueryParams<'a>) -> (r: (Vec<&'static str>, Vec<String>))
    ensures
        r.0@.map_values(|p: &str| p@) == spec_where_parts(*q),
        r.1@.map_values(|s: String| s@) == spec_filter_params(*q),
{
    let mut parts: Vec<&'static str> = Vec::new();
    let mut params: Vec<String> = Vec::new();
    match q.title {
        Some(t) => {
            parts.push("(LOWER( name ) LIKE '%' || (?) || '%')");
            params.push(squash_whitespace(t));
        },
        None => {},
    }
    match q.artist {
        Some(t) => {
            parts.push("(LOWER( artist ) LIKE '%' || (?) || '%')");
            params.push(squash_whitespace(t));
        },
        None => {},
    }
    match q.bpm_min {
        Some(b) => {
            parts.push("( bpm >= (?) )");
            params.push(dec_i64(b));
        },
        None => {},
    }
    match q.bpm_max {
        Some(b) => {
            parts.push("( bpm <= (?) )");
            params.push(dec_i64(b));
        },
        None => {},
    }
    match q.location {
        Some(t) => {
            parts.push("(LOWER( location ) LIKE '%' || (?) || '%')");
            params.push(squash_whitespace(t));
        },
        None => {},
    }
    proof {
        assert(parts@.map_values(|p: &str| p@) =~= spec_where_parts(*q));
        assert(params@.map_values(|s: String| s@) =~= spec_filter_params(*q));
    }
    (parts, params)
}

/// Joins the clauses with `AND` between neighbours.
#[verifier::loop_isolation(false)]
fn join_clauses(parts: &Vec<&str>) -> (r: String)
    requires
        parts@.len() > 0,
    ensures
        r@ == spec_join(parts@.map_values(|p: &str| p@), " AND "@),
{
    let ghost views = parts@.map_values(|p: &str| p@);
    let mut out = String::from_str(parts[0]);
    proof {
        assert(views.take(1) =~= seq![views[0]]);
    }
    let mut i: usize = 1;
    while i < parts.len()
        invariant
            1 <= i <= views.len(),
            out@ == spec_join(views.take(i as int), " AND "@),
        decreases views.len() - i,
    {
        out.append(" AND ");
        out.append(parts[i]);
        proof {
            assert(views.take(i + 1).drop_last() =~= views.take(i as int));
            assert(views.take(i + 1).last() == views[i as int]);
        }
        i = i + 1;
    }
    proof {
        assert(views.take(views.len() as int) =~= views);
    }
    out
}

/// Builds the query text and its parameter list for `q`: exactly as
/// `spec_tracks_query` and `spec_query_params` state them.
pub fn build_tracks_query(q: &QueryParams<'_>) -> (r: (String, Vec<String>))
    ensures
        r.0@ == spec_tracks_query(*q),
        r.1@.map_values(|s: String| s@) == spec_query_params(*q),
{
    let (parts, mut params) = select_filters(q);
    params.push(dec_u64(q.limit as u64));
    proof {
        assert(params@.map_values(|s: String| s@) =~= spec_query_params(*q));
    }
    let mut query = String::from_str("SELECT * FROM tracks ");
    if parts.len() > 0 {
        query.append("WHERE ");
        let joined = join_clauses(&parts);
        query.append(joined.as_str());
    }
    query.append(" LIMIT (?);");
    proof {
        assert(query@ =~= spec_tracks_query(*q));
    }
    (query, params)
}

} // verus!
