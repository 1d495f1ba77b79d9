//! The query parameter builder: a fixed set of named search constraints,
//! rendered as a slash-delimited path segment with the names in ascending
//! lexicographic order.

use vstd::prelude::*;
use vstd::string::StringExecFns;
use crate::strutil::{encode_spaces, encode_spaces_spec, push_char};

verus! {

/// The fixed set of parameter names that the search endpoint recognizes.
#[derive(Clone, Copy, PartialEq, Eq, Structural, Debug)]
pub enum ParamName {
    Episode,
    Imdbid,
    Moviebytesize,
    Moviehash,
    Query,
    Season,
    Sublanguageid,
    Tag,
}

/// The abstract state of a builder: for each recognized name, the stored
/// value, if one was set.
pub ghost struct ParamsView {
    pub episode: Option<Seq<char>>,
    pub imdbid: Option<Seq<char>>,
    pub moviebytesize: Option<Seq<char>>,
    pub moviehash: Option<Seq<char>>,
    pub query: Option<Seq<char>>,
    pub season: Option<Seq<char>>,
    pub sublanguageid: Option<Seq<char>>,
    pub tag: Option<Seq<char>>,
}

/// The view of a builder with no parameter set.
pub open spec fn empty_view() -> ParamsView {
    ParamsView {
        episode: Option::None,
        imdbid: Option::None,
        moviebytesize: Option::None,
        moviehash: Option::None,
        query: Option::None,
        season: Option::None,
        sublanguageid: Option::None,
        tag: Option::None,
    }
}

/// The stored value of `view_get(v, n)` after `set(n, value)`: free-text
/// parameters have their spaces percent-encoded, all others are stored as
/// given.
pub open spec fn stored_value(n: ParamName, value: Seq<char>) -> Seq<char> {
    if n == ParamName::Query || n == ParamName::Tag {
        encode_spaces_spec(value)
    } else {
        value
    }
}

/// The stored value for one name, if any.
pub open spec fn view_get(v: ParamsView, n: ParamName) -> Option<Seq<char>> {
    match n {
        ParamName::Episode => v.episode,
        ParamName::Imdbid => v.imdbid,
        ParamName::Moviebytesize => v.moviebytesize,
        ParamName::Moviehash => v.moviehash,
        ParamName::Query => v.query,
        ParamName::Season => v.season,
        ParamName::Sublanguageid => v.sublanguageid,
        ParamName::Tag => v.tag,
    }
}

/// The view after setting one parameter: the named slot holds the stored
/// value, every other slot is unchanged.
pub open spec fn set_spec(v: ParamsView, n: ParamName, value: Seq<char>) -> ParamsView {
    match n {
        ParamName::Episode => ParamsView { episode: Option::Some(stored_value(n, value)), ..v },
        ParamName::Imdbid => ParamsView { imdbid: Option::Some(stored_value(n, value)), ..v },
        ParamName::Moviebytesize => ParamsView {
            moviebytesize: Option::Some(stored_value(n, value)),
            ..v
        },
        ParamName::Moviehash => ParamsView { moviehash: Option::Some(stored_value(n, value)), ..v },
        ParamName::Query => ParamsView { query: Option::Some(stored_value(n, value)), ..v },
        ParamName::Season => ParamsView { season: Option::Some(stored_value(n, value)), ..v },
        ParamName::Sublanguageid => ParamsView {
            sublanguageid: Option::Some(stored_value(n, value)),
            ..v
        },
        ParamName::Tag => ParamsView { tag: Option::Some(stored_value(n, value)), ..v },
    }
}

/// One rendered path segment: the parameter name, a dash, the stored value.
pub open spec fn seg_of(name: Seq<char>, value: Seq<char>) -> Seq<char> {
    name + seq!['-'] + value
}

/// The segments one optional parameter contributes: none if it is unset,
/// exactly its `name-value` segment otherwise.
pub open spec fn opt_segs(name: Seq<char>, o: Option<Seq<char>>) -> Seq<Seq<char>> {
    match o {
        Option::None => Seq::empty(),
        Option::Some(value) => seq![seg_of(name, value)],
    }
}

/// The rendered segments of a builder, with the names in ascending
/// lexicographic order.
pub open spec fn segments(v: ParamsView) -> Seq<Seq<char>> {
    opt_segs("episode"@, v.episode) + opt_segs("imdbid"@, v.imdbid) + opt_segs(
        "moviebytesize"@,
        v.moviebytesize,
    ) + opt_segs("moviehash"@, v.moviehash) + opt_segs("query"@, v.query) + opt_segs(
        "season"@,
        v.season,
    ) + opt_segs("sublanguageid"@, v.sublanguageid) + opt_segs("tag"@, v.tag)
}

/// Sequences joined by a single slash between neighbours, with no slash
/// before the first or after the last.
pub open spec fn join_slash(segs: Seq<Seq<char>>) -> Seq<char>
    decreases segs.len(),
{
    if segs.len() == 0 {
        Seq::empty()
    } else if segs.len() == 1 {
        segs[0]
    } else {
        segs[0] + seq!['/'] + join_slash(segs.skip(1))
    }
}

/// The rendered query path of a builder state.
pub open spec fn path_spec(v: ParamsView) -> Seq<char> {
    join_slash(segments(v))
}

/// Appending one more segment appends a slash (when anything came before)
/// and the segment.
proof fn lemma_join_push(segs: Seq<Seq<char>>, s: Seq<char>)
    ensures
        join_slash(segs.push(s)) == (if segs.len() == 0 {
            s
        } else {
            join_slash(segs) + seq!['/'] + s
        }),
    decreases segs.len(),
{
    let t = segs.push(s);
    if segs.len() == 0 {
        assert(t.len() == 1);
        assert(t[0] == s);
    } else if segs.len() == 1 {
        assert(t.len() == 2);
        assert(t.skip(1) =~= seq![s]);
        assert(join_slash(t.skip(1)) == s);
        assert(join_slash(segs) == segs[0]);
    } else {
        assert(t.skip(1) =~= segs.skip(1).push(s));
        lemma_join_push(segs.skip(1), s);
        assert(join_slash(t) == t[0] + seq!['/'] + join_slash(t.skip(1)));
        assert(join_slash(t) =~= join_slash(segs) + seq!['/'] + s);
    }
}

/// Whether one rendered segment is well-formed: non-empty, and neither
/// starting nor ending with a slash.
pub open spec fn seg_wf(s: Seq<char>) -> bool {
    s.len() > 0 && s[0] != '/' && s.last() != '/'
}

/// Whether every segment of a sequence is well-formed.
pub open spec fn all_wf(segs: Seq<Seq<char>>) -> bool {
    forall|i: int| 0 <= i < segs.len() ==> seg_wf(#[trigger] segs[i])
}

/// Concatenation keeps well-formedness of all segments.
proof fn lemma_all_wf_concat(a: Seq<Seq<char>>, b: Seq<Seq<char>>)
    requires
        all_wf(a),
        all_wf(b),
    ensures
        all_wf(a + b),
{
    assert forall|i: int| 0 <= i < (a + b).len() implies seg_wf(#[trigger] (a + b)[i]) by {
        if i < a.len() {
            assert((a + b)[i] == a[i]);
        } else {
            assert((a + b)[i] == b[i - a.len()]);
        }
    }
}

/// The segments of one optional parameter are well-formed whenever the name
/// is non-empty, does not start with a slash, and the stored value does not
/// end with one.
proof fn lemma_opt_segs_wf(name: Seq<char>, o: Option<Seq<char>>)
    requires
        name.len() > 0,
        name[0] != '/',
        (match o {
            Option::None => true,
            Option::Some(s) => s.len() > 0 ==> s.last() != '/',
        }),
    ensures
        all_wf(opt_segs(name, o)),
{
    match o {
        Option::None => {
        },
        Option::Some(value) => {
            let seg = seg_of(name, value);
            assert(seg[0] == name[0]);
            if value.len() > 0 {
                assert(seg.last() == value.last());
            } else {
                assert(seg.last() == '-');
            }
            assert(seg_wf(seg));
            assert(forall|i: int|
                0 <= i < opt_segs(name, o).len() ==> opt_segs(name, o)[i] == seg);
        },
    }
}

/// A join of well-formed segments is empty exactly when there is no segment.
proof fn lemma_join_nonempty(segs: Seq<Seq<char>>)
    requires
        all_wf(segs),
    ensures
        join_slash(segs).len() == 0 <==> segs.len() == 0,
{
    if segs.len() == 1 {
        assert(seg_wf(segs[0]));
    } else if segs.len() > 1 {
        assert(seg_wf(segs[0]));
        assert(join_slash(segs).len() >= segs[0].len() + 1);
    }
}

/// A join of well-formed segments starts with the first character of the
/// first segment.
proof fn lemma_join_first(segs: Seq<Seq<char>>)
    requires
        segs.len() > 0,
        all_wf(segs),
    ensures
        join_slash(segs).len() > 0,
        join_slash(segs)[0] == segs[0][0],
{
    lemma_join_nonempty(segs);
    assert(seg_wf(segs[0]));
}

/// A join of well-formed segments ends with the last character of the last
/// segment.
proof fn lemma_join_last(segs: Seq<Seq<char>>)
    requires
        segs.len() > 0,
        all_wf(segs),
    ensures
        join_slash(segs).len() > 0,
        join_slash(segs).last() == segs.last().last(),
    decreases segs.len(),
{
    lemma_join_nonempty(segs);
    assert(seg_wf(segs.last()));
    if segs.len() == 1 {
    } else {
        let rest = segs.skip(1);
        assert(all_wf(rest)) by {
            assert(forall|i: int| 0 <= i < rest.len() ==> rest[i] == segs[i + 1]);
        }
        lemma_join_last(rest);
        assert(rest.last() == segs.last());
        let j = join_slash(segs);
        let jr = join_slash(rest);
        assert(j == segs[0] + seq!['/'] + jr);
        assert(j.last() == jr.last());
    }
}

/// Whether no stored value of the builder state ends with a slash.
pub open spec fn values_slash_clean(v: ParamsView) -> bool {
    forall|n: ParamName| match #[trigger] view_get(v, n) {
        Option::None => true,
        Option::Some(s) => s.len() > 0 ==> s.last() != '/',
    }
}

/// Law: the rendered path is the slash-join of the `name-value` segments,
/// and (for builder states whose stored values do not end with a slash) it
/// carries no leading and no trailing slash; it is empty exactly when no
/// parameter is set.
pub proof fn lemma_path_shape(v: ParamsView)
    requires
        values_slash_clean(v),
    ensures
        path_spec(v) == join_slash(segments(v)),
        path_spec(v).len() == 0 <==> segments(v).len() == 0,
        path_spec(v).len() > 0 ==> path_spec(v)[0] != '/',
        path_spec(v).len() > 0 ==> path_spec(v).last() != '/',
{
    reveal_strlit("episode");
    reveal_strlit("imdbid");
    reveal_strlit("moviebytesize");
    reveal_strlit("moviehash");
    reveal_strlit("query");
    reveal_strlit("season");
    reveal_strlit("sublanguageid");
    reveal_strlit("tag");
    assert(view_get(v, ParamName::Episode) == v.episode);
    assert(view_get(v, ParamName::Imdbid) == v.imdbid);
    assert(view_get(v, ParamName::Moviebytesize) == v.moviebytesize);
    assert(view_get(v, ParamName::Moviehash) == v.moviehash);
    assert(view_get(v, ParamName::Query) == v.query);
    assert(view_get(v, ParamName::Season) == v.season);
    assert(view_get(v, ParamName::Sublanguageid) == v.sublanguageid);
    assert(view_get(v, ParamName::Tag) == v.tag);
    lemma_opt_segs_wf("episode"@, v.episode);
    lemma_opt_segs_wf("imdbid"@, v.imdbid);
    lemma_opt_segs_wf("moviebytesize"@, v.moviebytesize);
    lemma_opt_segs_wf("moviehash"@, v.moviehash);
    lemma_opt_segs_wf("query"@, v.query);
    lemma_opt_segs_wf("season"@, v.season);
    lemma_opt_segs_wf("sublanguageid"@, v.sublanguageid);
    lemma_opt_segs_wf("tag"@, v.tag);
    let a1 = opt_segs("episode"@, v.episode);
    let a2 = a1 + opt_segs("imdbid"@, v.imdbid);
    let a3 = a2 + opt_segs("moviebytesize"@, v.moviebytesize);
    let a4 = a3 + opt_segs("moviehash"@, v.moviehash);
    let a5 = a4 + opt_segs("query"@, v.query);
    let a6 = a5 + opt_segs("season"@, v.season);
    let a7 = a6 + opt_segs("sublanguageid"@, v.sublanguageid);
    let a8 = a7 + opt_segs("tag"@, v.tag);
    lemma_all_wf_concat(a1, opt_segs("imdbid"@, v.imdbid));
    lemma_all_wf_concat(a2, opt_segs("moviebytesize"@, v.moviebytesize));
    lemma_all_wf_concat(a3, opt_segs("moviehash"@, v.moviehash));
    lemma_all_wf_concat(a4, opt_segs("query"@, v.query));
    lemma_all_wf_concat(a5, opt_segs("season"@, v.season));
    lemma_all_wf_concat(a6, opt_segs("sublanguageid"@, v.sublanguageid));
    lemma_all_wf_concat(a7, opt_segs("tag"@, v.tag));
    assert(segments(v) == a8);
    lemma_join_nonempty(segments(v));
    if segments(v).len() > 0 {
        lemma_join_first(segments(v));
        lemma_join_last(segments(v));
        assert(seg_wf(segments(v)[0]));
        assert(seg_wf(segments(v).last()));
    }
}

/// Law: setting two distinct parameters commutes; with rendering a function
/// of the final builder state alone, the rendered path does not depend on
/// the order in which the parameters were set.
pub proof fn lemma_set_commutes(
    v: ParamsView,
    n1: ParamName,
    x1: Seq<char>,
    n2: ParamName,
    x2: Seq<char>,
)
    requires
        n1 != n2,
    ensures
        set_spec(set_spec(v, n1, x1), n2, x2) == set_spec(set_spec(v, n2, x2), n1, x1),
{
}

/// The builder state after a run of insertions, applied first to last.
pub open spec fn apply_all(v: ParamsView, s: Seq<(ParamName, Seq<char>)>) -> ParamsView
    decreases s.len(),
{
    if s.len() == 0 {
        v
    } else {
        apply_all(set_spec(v, s[0].0, s[0].1), s.skip(1))
    }
}

/// The value of the last insertion for one name, if the run inserts that
/// name at all.
pub open spec fn last_value_for(s: Seq<(ParamName, Seq<char>)>, n: ParamName) -> Option<Seq<char>>
    decreases s.len(),
{
    if s.len() == 0 {
        Option::None
    } else {
        match last_value_for(s.skip(1), n) {
            Option::Some(val) => Option::Some(val),
            Option::None => if s[0].0 == n {
                Option::Some(s[0].1)
            } else {
                Option::None
            },
        }
    }
}

/// Each slot of the state after a run of insertions holds the stored form
/// of the last value inserted for its name, and stays as it began when the
/// run never touches that name.
pub proof fn lemma_apply_all_pointwise(
    v: ParamsView,
    s: Seq<(ParamName, Seq<char>)>,
    n: ParamName,
)
    ensures
        view_get(apply_all(v, s), n) == (match last_value_for(s, n) {
            Option::None => view_get(v, n),
            Option::Some(val) => Option::Some(stored_value(n, val)),
        }),
    decreases s.len(),
{
    if s.len() > 0 {
        lemma_apply_all_pointwise(set_spec(v, s[0].0, s[0].1), s.skip(1), n);
    }
}

/// Law: two insertion runs that give each name the same last value — in
/// particular, the same pairs with pairwise distinct names, inserted in any
/// order — leave the builder in the same state, and so render the same
/// path.
pub proof fn lemma_order_independent(
    v: ParamsView,
    s1: Seq<(ParamName, Seq<char>)>,
    s2: Seq<(ParamName, Seq<char>)>,
)
    requires
        forall|n: ParamName| last_value_for(s1, n) == last_value_for(s2, n),
    ensures
        apply_all(v, s1) == apply_all(v, s2),
        path_spec(apply_all(v, s1)) == path_spec(apply_all(v, s2)),
{
    lemma_apply_all_pointwise(v, s1, ParamName::Episode);
    lemma_apply_all_pointwise(v, s2, ParamName::Episode);
    lemma_apply_all_pointwise(v, s1, ParamName::Imdbid);
    lemma_apply_all_pointwise(v, s2, ParamName::Imdbid);
    lemma_apply_all_pointwise(v, s1, ParamName::Moviebytesize);
    lemma_apply_all_pointwise(v, s2, ParamName::Moviebytesize);
    lemma_apply_all_pointwise(v, s1, ParamName::Moviehash);
    lemma_apply_all_pointwise(v, s2, ParamName::Moviehash);
    lemma_apply_all_pointwise(v, s1, ParamName::Query);
    lemma_apply_all_pointwise(v, s2, ParamName::Query);
    lemma_apply_all_pointwise(v, s1, ParamName::Season);
    lemma_apply_all_pointwise(v, s2, ParamName::Season);
    lemma_apply_all_pointwise(v, s1, ParamName::Sublanguageid);
    lemma_apply_all_pointwise(v, s2, ParamName::Sublanguageid);
    lemma_apply_all_pointwise(v, s1, ParamName::Tag);
    lemma_apply_all_pointwise(v, s2, ParamName::Tag);
    let a = apply_all(v, s1);
    let b = apply_all(v, s2);
    assert(a.episode == view_get(a, ParamName::Episode));
    assert(a.imdbid == view_get(a, ParamName::Imdbid));
    assert(a.moviebytesize == view_get(a, ParamName::Moviebytesize));
    assert(a.moviehash == view_get(a, ParamName::Moviehash));
    assert(a.query == view_get(a, ParamName::Query));
    assert(a.season == view_get(a, ParamName::Season));
    assert(a.sublanguageid == view_get(a, ParamName::Sublanguageid));
    assert(a.tag == view_get(a, ParamName::Tag));
    assert(b.episode == view_get(b, ParamName::Episode));
    assert(b.imdbid == view_get(b, ParamName::Imdbid));
    assert(b.moviebytesize == view_get(b, ParamName::Moviebytesize));
    assert(b.moviehash == view_get(b, ParamName::Moviehash));
    assert(b.query == view_get(b, ParamName::Query));
    assert(b.season == view_get(b, ParamName::Season));
    assert(b.sublanguageid == view_get(b, ParamName::Sublanguageid));
    assert(b.tag == view_get(b, ParamName::Tag));
    assert(a == b);
}

/// Law: setting the same parameter twice keeps only the last value.
pub proof fn lemma_set_overwrites(v: ParamsView, n: ParamName, x1: Seq<char>, x2: Seq<char>)
    ensures
        set_spec(set_spec(v, n, x1), n, x2) == set_spec(v, n, x2),
{
}

/// Law: an empty builder renders the empty string.
pub proof fn lemma_render_empty()
    ensures
        path_spec(empty_view()) == Seq::<char>::empty(),
{
    assert(segments(empty_view()) =~= Seq::<Seq<char>>::empty());
}

/// A builder for the search query: accumulates values for the recognized
/// parameter names and renders them as one path segment.
pub struct QueryParams {
    episode: Option<String>,
    imdbid: Option<String>,
    moviebytesize: Option<String>,
    moviehash: Option<String>,
    query: Option<String>,
    season: Option<String>,
    sublanguageid: Option<String>,
    tag: Option<String>,
}

/// The view of one optional stored value.
spec fn opt_view(o: Option<String>) -> Option<Seq<char>> {
    match o {
        Option::None => Option::None,
        Option::Some(s) => Option::Some(s@),
    }
}

impl View for QueryParams {
    type V = ParamsView;

    closed spec fn view(&self) -> ParamsView {
        ParamsView {
            episode: opt_view(self.episode),
            imdbid: opt_view(self.imdbid),
            moviebytesize: opt_view(self.moviebytesize),
            moviehash: opt_view(self.moviehash),
            query: opt_view(self.query),
            season: opt_view(self.season),
            sublanguageid: opt_view(self.sublanguageid),
            tag: opt_view(self.tag),
        }
    }
}

/// Appends one `name-value` segment to the rendered path, preceded by a
/// slash when a segment already stands before it.
fn push_segment(out: &mut String, any: bool, name: &str, value: &str)
    ensures
        final(out)@ == old(out)@ + (if any {
            seq!['/']
        } else {
            Seq::<char>::empty()
        }) + name@ + seq!['-'] + value@,
{
    if any {
        push_char(out, '/');
    }
    out.append(name);
    push_char(out, '-');
    out.append(value);
    assert(out@ =~= old(out)@ + (if any {
        seq!['/']
    } else {
        Seq::<char>::empty()
    }) + name@ + seq!['-'] + value@);
}

/// Appends the segments of one optional parameter to the rendered path:
/// nothing when the parameter is unset, its `name-value` segment (preceded
/// by a slash when anything stands before it) otherwise. Returns whether any
/// segment has been rendered so far.
fn push_opt(
    out: &mut String,
    any: bool,
    name: &str,
    field: &Option<String>,
    Ghost(segs): Ghost<Seq<Seq<char>>>,
) -> (r: bool)
    requires
        old(out)@ == join_slash(segs),
        any == (segs.len() > 0),
    ensures
        final(out)@ == join_slash(segs + opt_segs(name@, opt_view(*field))),
        r == ((segs + opt_segs(name@, opt_view(*field))).len() > 0),
{
    match field {
        None => {
            proof {
                assert(segs + opt_segs(name@, opt_view(*field)) =~= segs);
            }
            any
        },
        Some(val) => {
            proof {
                lemma_join_push(segs, seg_of(name@, val@));
                assert(segs + opt_segs(name@, opt_view(*field)) =~= segs.push(
                    seg_of(name@, val@),
                ));
            }
            push_segment(out, any, name, val.as_str());
            proof {
                assert(out@ =~= join_slash(segs.push(seg_of(name@, val@))));
            }
            true
        },
    }
}

impl QueryParams {
    /// A builder with no parameter set.
    pub fn new() -> (r: Self)
        ensures
            r@ == empty_view(),
    {
        QueryParams {
            episode: None,
            imdbid: None,
            moviebytesize: None,
            moviehash: None,
            query: None,
            season: None,
            sublanguageid: None,
            tag: None,
        }
    }

    /// Sets one parameter, replacing any earlier value for the same name.
    /// The free-text parameters (`query` and `tag`) have their spaces
    /// percent-encoded as `%20` on the way in.
    pub fn set(self, name: ParamName, value: String) -> (r: Self)
        ensures
            r@ == set_spec(self@, name, value@),
    {
        let stored = match name {
            ParamName::Query | ParamName::Tag => encode_spaces(value.as_str()),
            _ => value,
        };
        match name {
            ParamName::Episode => QueryParams { episode: Some(stored), ..self },
            ParamName::Imdbid => QueryParams { imdbid: Some(stored), ..self },
            ParamName::Moviebytesize => QueryParams { moviebytesize: Some(stored), ..self },
            ParamName::Moviehash => QueryParams { moviehash: Some(stored), ..self },
            ParamName::Query => QueryParams { query: Some(stored), ..self },
            ParamName::Season => QueryParams { season: Some(stored), ..self },
            ParamName::Sublanguageid => QueryParams { sublanguageid: Some(stored), ..self },
            ParamName::Tag => QueryParams { tag: Some(stored), ..self },
        }
    }

    /// Renders the accumulated parameters as the search path segment:
    /// `name-value` pairs joined by single slashes, names in ascending
    /// lexicographic order.
    pub fn query_path(self) -> (r: String)
        ensures
            r@ == path_spec(self@),
    {
        let ghost v = self@;
        let mut out = String::new();
        let mut any: bool = false;
        let ghost mut segs: Seq<Seq<char>> = Seq::empty();

        any = push_opt(&mut out, any, "episode", &self.episode, Ghost(segs));
        proof {
            segs = segs + opt_segs("episode"@, opt_view(self.episode));
        }
        any = push_opt(&mut out, any, "imdbid", &self.imdbid, Ghost(segs));
        proof {
            segs = segs + opt_segs("imdbid"@, opt_view(self.imdbid));
        }
        any = push_opt(&mut out, any, "moviebytesize", &self.moviebytesize, Ghost(segs));
        proof {
            segs = segs + opt_segs("moviebytesize"@, opt_view(self.moviebytesize));
        }
        any = push_opt(&mut out, any, "moviehash", &self.moviehash, Ghost(segs));
        proof {
            segs = segs + opt_segs("moviehash"@, opt_view(self.moviehash));
        }
        any = push_opt(&mut out, any, "query", &self.query, Ghost(segs));
        proof {
            segs = segs + opt_segs("query"@, opt_view(self.query));
        }
        any = push_opt(&mut out, any, "season", &self.season, Ghost(segs));
        proof {
            segs = segs + opt_segs("season"@, opt_view(self.season));
        }
        any = push_opt(&mut out, any, "sublanguageid", &self.sublanguageid, Ghost(segs));
        proof {
            segs = segs + opt_segs("sublanguageid"@, opt_view(self.sublanguageid));
        }
        push_opt(&mut out, any, "tag", &self.tag, Ghost(segs));
        proof {
            segs = segs + opt_segs("tag"@, opt_view(self.tag));
        }
        assert(segs =~= segments(v));
        out
    }
}

} // verus!
