//! The mutable shape of a unified request: headers (a multimap), query
//! parameters, path parameters and an optional JSON body, together with
//! the functional transforms the request pipeline applies to it.
//!
//! Key/value collections are association lists; setting a key removes
//! every pair carrying it and appends the new pair, so lookups are
//! unambiguous and the order of unrelated pairs is kept.
use crate::json::{jview, JsonValue, Jv};
use crate::strutil::{first_pos, split_on, split_view};
use vstd::prelude::*;
use vstd::string::{StrSliceExecFns, StringExecFns};

verus! {

/// View of an association list of strings.
pub open spec fn pairs_view(v: Seq<(String, String)>) -> Seq<(Seq<char>, Seq<char>)> {
    v.map_values(|p: (String, String)| (p.0@, p.1@))
}

/// The first value bound to a key.
pub open spec fn map_get_view(m: Seq<(Seq<char>, Seq<char>)>, k: Seq<char>) -> Option<Seq<char>>
    decreases m.len(),
{
    if m.len() == 0 {
        Option::None
    } else if m[0].0 == k {
        Option::Some(m[0].1)
    } else {
        map_get_view(m.drop_first(), k)
    }
}

/// The list without any pair carrying the key.
pub open spec fn map_remove_view(m: Seq<(Seq<char>, Seq<char>)>, k: Seq<char>) -> Seq<
    (Seq<char>, Seq<char>),
>
    decreases m.len(),
{
    if m.len() == 0 {
        Seq::empty()
    } else if m[0].0 == k {
        map_remove_view(m.drop_first(), k)
    } else {
        seq![m[0]] + map_remove_view(m.drop_first(), k)
    }
}

/// No pair carries the key.
pub open spec fn map_lacks(m: Seq<(Seq<char>, Seq<char>)>, k: Seq<char>) -> bool {
    forall|i: int| 0 <= i < m.len() ==> (#[trigger] m[i]).0 != k
}

/// Binds the key to the value: every old pair with the key goes, the new
/// pair comes last.
pub open spec fn map_set_view(
    m: Seq<(Seq<char>, Seq<char>)>,
    k: Seq<char>,
    v: Seq<char>,
) -> Seq<(Seq<char>, Seq<char>)> {
    map_remove_view(m, k).push((k, v))
}

/// Binds each pair in turn.
pub open spec fn map_extend_view(
    m: Seq<(Seq<char>, Seq<char>)>,
    pairs: Seq<(Seq<char>, Seq<char>)>,
) -> Seq<(Seq<char>, Seq<char>)>
    decreases pairs.len(),
{
    if pairs.len() == 0 {
        m
    } else {
        map_extend_view(map_set_view(m, pairs[0].0, pairs[0].1), pairs.drop_first())
    }
}

/// The key/value split of one `k=v` segment, if it has an `=`.
pub open spec fn eq_split(seg: Seq<char>) -> Option<(Seq<char>, Seq<char>)> {
    let i = first_pos(seg, '=', 0);
    if i < 0 {
        Option::None
    } else {
        Option::Some((seg.take(i), seg.skip(i + 1)))
    }
}

/// The pairs among the segments that have an `=`.
pub open spec fn kv_pairs(segs: Seq<Seq<char>>) -> Seq<(Seq<char>, Seq<char>)>
    decreases segs.len(),
{
    if segs.len() == 0 {
        Seq::empty()
    } else {
        (match eq_split(segs[0]) {
            Option::Some(p) => seq![p],
            Option::None => Seq::empty(),
        }) + kv_pairs(segs.drop_first())
    }
}

/// The `k=v` pairs of a `sep`-delimited list, segments without `=` dropped.
pub open spec fn parse_kv_view(s: Seq<char>, sep: char) -> Seq<(Seq<char>, Seq<char>)> {
    kv_pairs(split_view(s, sep))
}

/// Parses `k=v<sep>k=v` into pairs, dropping segments without an `=`.
pub fn parse_kv(s: &str, sep: char) -> (r: Vec<(String, String)>)
    ensures
        pairs_view(r@) == parse_kv_view(s@, sep),
{
    let segs = split_on(s, sep);
    let ghost seg_views = segs@.map_values(|t: String| t@);
    let mut out: Vec<(String, String)> = Vec::new();
    let mut i: usize = 0;
    while i < segs.len()
        invariant
            i <= segs@.len(),
            seg_views == segs@.map_values(|t: String| t@),
            pairs_view(out@) == kv_pairs(seg_views.take(i as int)),
        decreases segs@.len() - i,
    {
        let seg = &segs[i];
        let n = seg.as_str().unicode_len();
        match crate::strutil::find_char_from(seg.as_str(), '=', 0) {
            Option::None => {},
            Option::Some(p) => {
                let k = seg.as_str().substring_char(0, p).to_owned();
                let v = seg.as_str().substring_char(p + 1, n).to_owned();
                out.push((k, v));
            },
        }
        i = i + 1;
        proof {
            lemma_kv_pairs_take(seg_views, i as int);
            assert(pairs_view(out@) =~~= kv_pairs(seg_views.take(i as int)));
        }
    }
    proof {
        assert(seg_views.take(seg_views.len() as int) =~= seg_views);
    }
    out
}

proof fn lemma_kv_pairs_take(segs: Seq<Seq<char>>, i: int)
    requires
        0 < i <= segs.len(),
    ensures
        kv_pairs(segs.take(i)) == kv_pairs(segs.take(i - 1)) + (match eq_split(segs[i - 1]) {
            Option::Some(p) => seq![p],
            Option::None => Seq::empty(),
        }),
    decreases i,
{
    if i == 1 {
        assert(segs.take(0) =~= Seq::<Seq<char>>::empty());
        assert(segs.take(1).drop_first() =~= Seq::<Seq<char>>::empty());
        assert(segs.take(1)[0] == segs[0]);
        assert(kv_pairs(segs.take(1)) =~= kv_pairs(segs.take(0)) + (match eq_split(segs[0]) {
            Option::Some(p) => seq![p],
            Option::None => Seq::<(Seq<char>, Seq<char>)>::empty(),
        }));
    } else {
        lemma_kv_pairs_take(segs.drop_first(), i - 1);
        assert(segs.take(i).drop_first() =~= segs.drop_first().take(i - 1));
        assert(segs.take(i - 1).drop_first() =~= segs.drop_first().take(i - 2));
        assert(segs.take(i)[0] == segs[0]);
        assert(segs.take(i - 1)[0] == segs[0]);
        assert(segs.drop_first()[i - 2] == segs[i - 1]);
        assert(kv_pairs(segs.take(i)) =~= kv_pairs(segs.take(i - 1)) + (match eq_split(
            segs[i - 1],
        ) {
            Option::Some(p) => seq![p],
            Option::None => Seq::<(Seq<char>, Seq<char>)>::empty(),
        }));
    }
}

/// The first value bound to a key, removed pairs, and the rest.
pub fn map_remove(m: Vec<(String, String)>, k: &str) -> (r: (Vec<(String, String)>, Option<String>))
    ensures
        pairs_view(r.0@) == map_remove_view(pairs_view(m@), k@),
        match r.1 {
            Option::Some(v) => map_get_view(pairs_view(m@), k@) == Option::Some(v@),
            Option::None => map_get_view(pairs_view(m@), k@) is None,
        },
{
    let ghost mv = pairs_view(m@);
    let key = k.to_owned();
    let mut out: Vec<(String, String)> = Vec::new();
    let mut removed: Option<String> = Option::None;
    let mut i: usize = 0;
    while i < m.len()
        invariant
            i <= m@.len(),
            mv == pairs_view(m@),
            key@ == k@,
            pairs_view(out@) == map_remove_view(mv.take(i as int), k@),
            match removed {
                Option::Some(v) => map_get_view(mv.take(i as int), k@) == Option::Some(v@),
                Option::None => map_get_view(mv.take(i as int), k@) is None,
            },
        decreases m@.len() - i,
    {
        let is_key = String::eq(&m[i].0, &key);
        proof {
            assert(mv[i as int] == (m@[i as int].0@, m@[i as int].1@));
            lemma_map_remove_take(mv, k@, i + 1);
            lemma_map_get_take(mv, k@, i + 1);
        }
        if is_key {
            if removed.is_none() {
                let p = &m[i];
                removed = Option::Some(p.1.clone());
            }
            proof {
                assert(pairs_view(out@) =~~= map_remove_view(mv.take(i + 1), k@));
            }
        } else {
            let p = &m[i];
            out.push((p.0.clone(), p.1.clone()));
            proof {
                assert(pairs_view(out@) =~~= map_remove_view(mv.take(i + 1), k@));
            }
        }
        i = i + 1;
    }
    proof {
        assert(mv.take(mv.len() as int) =~= mv);
    }
    (out, removed)
}

proof fn lemma_map_remove_take(m: Seq<(Seq<char>, Seq<char>)>, k: Seq<char>, i: int)
    requires
        0 < i <= m.len(),
    ensures
        map_remove_view(m.take(i), k) == map_remove_view(m.take(i - 1), k) + (if m[i - 1].0 == k {
            Seq::<(Seq<char>, Seq<char>)>::empty()
        } else {
            seq![m[i - 1]]
        }),
    decreases i,
{
    if i == 1 {
        assert(m.take(0) =~= Seq::<(Seq<char>, Seq<char>)>::empty());
        assert(m.take(1).drop_first() =~= Seq::<(Seq<char>, Seq<char>)>::empty());
        assert(m.take(1)[0] == m[0]);
        assert(map_remove_view(m.take(1), k) =~= map_remove_view(m.take(0), k) + (if m[0].0 == k {
            Seq::<(Seq<char>, Seq<char>)>::empty()
        } else {
            seq![m[0]]
        }));
    } else {
        lemma_map_remove_take(m.drop_first(), k, i - 1);
        assert(m.take(i).drop_first() =~= m.drop_first().take(i - 1));
        assert(m.take(i - 1).drop_first() =~= m.drop_first().take(i - 2));
        assert(m.take(i)[0] == m[0]);
        assert(m.take(i - 1)[0] == m[0]);
        assert(m.drop_first()[i - 2] == m[i - 1]);
        assert(map_remove_view(m.take(i), k) =~= map_remove_view(m.take(i - 1), k) + (if m[i
            - 1].0 == k {
            Seq::<(Seq<char>, Seq<char>)>::empty()
        } else {
            seq![m[i - 1]]
        }));
    }
}

proof fn lemma_map_get_take(m: Seq<(Seq<char>, Seq<char>)>, k: Seq<char>, i: int)
    requires
        0 < i <= m.len(),
    ensures
        map_get_view(m.take(i - 1), k) is Some ==> map_get_view(m.take(i), k) == map_get_view(
            m.take(i - 1),
            k,
        ),
        map_get_view(m.take(i - 1), k) is None && m[i - 1].0 == k ==> map_get_view(m.take(i), k)
            == Option::Some(m[i - 1].1),
        map_get_view(m.take(i - 1), k) is None && m[i - 1].0 != k ==> map_get_view(m.take(i), k)
            is None,
    decreases i,
{
    if i == 1 {
        assert(m.take(0) =~= Seq::<(Seq<char>, Seq<char>)>::empty());
        assert(m.take(1).drop_first() =~= Seq::<(Seq<char>, Seq<char>)>::empty());
        assert(m.take(1)[0] == m[0]);
    } else {
        lemma_map_get_take(m.drop_first(), k, i - 1);
        assert(m.take(i).drop_first() =~= m.drop_first().take(i - 1));
        assert(m.take(i - 1).drop_first() =~= m.drop_first().take(i - 2));
        assert(m.take(i)[0] == m[0]);
        assert(m.take(i - 1)[0] == m[0]);
        assert(m.drop_first()[i - 2] == m[i - 1]);
    }
}

/// Binds the key to the value.
pub fn map_set(m: Vec<(String, String)>, k: String, v: String) -> (r: Vec<(String, String)>)
    ensures
        pairs_view(r@) == map_set_view(pairs_view(m@), k@, v@),
{
    let (mut out, _) = map_remove(m, k.as_str());
    out.push((k, v));
    proof {
        assert(pairs_view(out@) =~~= map_set_view(pairs_view(m@), k@, v@));
    }
    out
}

/// Binds each pair in turn.
pub fn map_extend(m: Vec<(String, String)>, pairs: Vec<(String, String)>) -> (r: Vec<
    (String, String),
>)
    ensures
        pairs_view(r@) == map_extend_view(pairs_view(m@), pairs_view(pairs@)),
{
    let ghost m0 = pairs_view(m@);
    let ghost pv = pairs_view(pairs@);
    let mut cur = m;
    let mut i: usize = 0;
    while i < pairs.len()
        invariant
            i <= pairs@.len(),
            pv == pairs_view(pairs@),
            pairs_view(cur@) == map_extend_view(m0, pv.take(i as int)),
        decreases pairs@.len() - i,
    {
        let p = &pairs[i];
        cur = map_set(cur, p.0.clone(), p.1.clone());
        i = i + 1;
        proof {
            lemma_map_extend_push(m0, pv.take(i - 1), pv[i - 1]);
            assert(pv.take(i as int) =~= pv.take(i - 1).push(pv[i - 1]));
        }
    }
    proof {
        assert(pv.take(pv.len() as int) =~= pv);
    }
    cur
}

proof fn lemma_map_extend_push(
    m: Seq<(Seq<char>, Seq<char>)>,
    pairs: Seq<(Seq<char>, Seq<char>)>,
    p: (Seq<char>, Seq<char>),
)
    ensures
        map_extend_view(m, pairs.push(p)) == map_set_view(map_extend_view(m, pairs), p.0, p.1),
    decreases pairs.len(),
{
    if pairs.len() == 0 {
        assert(pairs.push(p)[0] == p);
        assert(pairs.push(p).drop_first() =~= Seq::<(Seq<char>, Seq<char>)>::empty());
        assert(map_extend_view(map_set_view(m, p.0, p.1), Seq::<(Seq<char>, Seq<char>)>::empty())
            == map_set_view(m, p.0, p.1));
    } else {
        lemma_map_extend_push(map_set_view(m, pairs[0].0, pairs[0].1), pairs.drop_first(), p);
        assert(pairs.push(p)[0] == pairs[0]);
        assert(pairs.push(p).drop_first() =~= pairs.drop_first().push(p));
    }
}

/// The first value bound to a key.
pub fn map_lookup(m: &Vec<(String, String)>, k: &str) -> (r: Option<String>)
    ensures
        match r {
            Option::Some(v) => map_get_view(pairs_view(m@), k@) == Option::Some(v@),
            Option::None => map_get_view(pairs_view(m@), k@) is None,
        },
{
    let ghost mv = pairs_view(m@);
    let key = k.to_owned();
    let mut i: usize = 0;
    while i < m.len()
        invariant
            i <= m@.len(),
            mv == pairs_view(m@),
            key@ == k@,
            map_get_view(mv.take(i as int), k@) is None,
        decreases m@.len() - i,
    {
        proof {
            assert(mv[i as int] == (m@[i as int].0@, m@[i as int].1@));
            lemma_map_get_take(mv, k@, i + 1);
        }
        if String::eq(&m[i].0, &key) {
            let v = m[i].1.clone();
            proof {
                lemma_get_prefix(mv, k@, i + 1);
            }
            return Option::Some(v);
        }
        i = i + 1;
    }
    proof {
        assert(mv.take(mv.len() as int) =~= mv);
    }
    Option::None
}

proof fn lemma_get_prefix(m: Seq<(Seq<char>, Seq<char>)>, k: Seq<char>, i: int)
    requires
        0 <= i <= m.len(),
        map_get_view(m.take(i), k) is Some,
    ensures
        map_get_view(m, k) == map_get_view(m.take(i), k),
    decreases m.len(),
{
    if i == 0 {
        assert(m.take(0) =~= Seq::<(Seq<char>, Seq<char>)>::empty());
    } else {
        assert(m.take(i)[0] == m[0]);
        if m[0].0 != k {
            assert(m.take(i).drop_first() =~= m.drop_first().take(i - 1));
            lemma_get_prefix(m.drop_first(), k, i - 1);
        }
    }
}

/// View of an optional owned string.
pub open spec fn opt_view(o: Option<String>) -> Option<Seq<char>> {
    match o {
        Option::None => Option::None,
        Option::Some(s) => Option::Some(s@),
    }
}

/// A request's headers, query parameters, path parameters and body.
#[derive(Debug, PartialEq, Eq)]
pub struct RequestCrud {
    pub headers: Vec<(String, String)>,
    pub query_params: Vec<(String, String)>,
    pub path_params: Vec<(String, String)>,
    pub body: Option<JsonValue>,
}

/// Mathematical model of a request.
pub struct CrudView {
    pub headers: Seq<(Seq<char>, Seq<char>)>,
    pub query_params: Seq<(Seq<char>, Seq<char>)>,
    pub path_params: Seq<(Seq<char>, Seq<char>)>,
    pub body: Option<Jv>,
}

pub open spec fn crud_view(c: RequestCrud) -> CrudView {
    CrudView {
        headers: pairs_view(c.headers@),
        query_params: pairs_view(c.query_params@),
        path_params: pairs_view(c.path_params@),
        body: crate::error::opt_jview(c.body),
    }
}

impl RequestCrud {
    /// A request with no path parameters yet.
    pub fn new(
        headers: Vec<(String, String)>,
        query_params: Vec<(String, String)>,
        body: Option<JsonValue>,
    ) -> (r: RequestCrud)
        ensures
            crud_view(r) == (CrudView {
                headers: pairs_view(headers@),
                query_params: pairs_view(query_params@),
                path_params: Seq::empty(),
                body: crate::error::opt_jview(body),
            }),
    {
        let r = RequestCrud { headers, query_params, path_params: Vec::new(), body };
        proof {
            assert(pairs_view(r.path_params@) =~= Seq::<(Seq<char>, Seq<char>)>::empty());
        }
        r
    }

    /// The first header with this name.
    pub fn get_header(&self, name: &str) -> (r: Option<String>)
        ensures
            opt_view(r) == map_get_view(crud_view(*self).headers, name@),
    {
        map_lookup(&self.headers, name)
    }

    /// The first query parameter with this name.
    pub fn get_query_param(&self, name: &str) -> (r: Option<String>)
        ensures
            opt_view(r) == map_get_view(crud_view(*self).query_params, name@),
    {
        map_lookup(&self.query_params, name)
    }

    /// Replaces the body.
    pub fn set_body(self, body: Option<JsonValue>) -> (r: RequestCrud)
        ensures
            crud_view(r) == (CrudView { body: crate::error::opt_jview(body), ..crud_view(self) }),
    {
        RequestCrud { body, ..self }
    }

    /// Replaces the body when a new one is given; keeps the old one else.
    pub fn extend_body(self, body: Option<JsonValue>) -> (r: RequestCrud)
        ensures
            crud_view(r) == (CrudView {
                body: match body {
                    Option::Some(b) => Option::Some(jview(b)),
                    Option::None => crud_view(self).body,
                },
                ..crud_view(self)
            }),
    {
        match body {
            Option::Some(b) => RequestCrud { body: Option::Some(b), ..self },
            Option::None => self,
        }
    }

    /// Strips a query parameter, returning its first value.
    pub fn remove_query_params(self, k: &str) -> (r: (RequestCrud, Option<String>))
        ensures
            crud_view(r.0) == (CrudView {
                query_params: map_remove_view(crud_view(self).query_params, k@),
                ..crud_view(self)
            }),
            opt_view(r.1) == map_get_view(crud_view(self).query_params, k@),
    {
        let RequestCrud { headers, query_params, path_params, body } = self;
        let (query_params, removed) = map_remove(query_params, k);
        (RequestCrud { headers, query_params, path_params, body }, removed)
    }

    /// Binds each pair as a query parameter.
    pub fn extend_query_params(self, pairs: Vec<(String, String)>) -> (r: RequestCrud)
        ensures
            crud_view(r) == (CrudView {
                query_params: map_extend_view(crud_view(self).query_params, pairs_view(pairs@)),
                ..crud_view(self)
            }),
    {
        let RequestCrud { headers, query_params, path_params, body } = self;
        let query_params = map_extend(query_params, pairs);
        RequestCrud { headers, query_params, path_params, body }
    }

    /// Strips a header, returning its first value.
    pub fn remove_header(self, k: &str) -> (r: (RequestCrud, Option<String>))
        ensures
            crud_view(r.0) == (CrudView {
                headers: map_remove_view(crud_view(self).headers, k@),
                ..crud_view(self)
            }),
            opt_view(r.1) == map_get_view(crud_view(self).headers, k@),
    {
        let RequestCrud { headers, query_params, path_params, body } = self;
        let (headers, removed) = map_remove(headers, k);
        (RequestCrud { headers, query_params, path_params, body }, removed)
    }

    /// Binds each pair as a header.
    pub fn extend_header(self, pairs: Vec<(String, String)>) -> (r: RequestCrud)
        ensures
            crud_view(r) == (CrudView {
                headers: map_extend_view(crud_view(self).headers, pairs_view(pairs@)),
                ..crud_view(self)
            }),
    {
        let RequestCrud { headers, query_params, path_params, body } = self;
        let headers = map_extend(headers, pairs);
        RequestCrud { headers, query_params, path_params, body }
    }

    /// Binds a path parameter when a value is given.
    pub fn add_path_param(self, k: String, v: Option<String>) -> (r: RequestCrud)
        ensures
            crud_view(r) == (CrudView {
                path_params: match v {
                    Option::Some(value) => map_set_view(crud_view(self).path_params, k@, value@),
                    Option::None => crud_view(self).path_params,
                },
                ..crud_view(self)
            }),
    {
        match v {
            Option::None => self,
            Option::Some(value) => {
                let RequestCrud { headers, query_params, path_params, body } = self;
                let path_params = map_set(path_params, k, value);
                RequestCrud { headers, query_params, path_params, body }
            },
        }
    }
}

/// The query parameter whose value carries caller-forwarded parameters.
pub open spec fn forward_param_key() -> Seq<char> {
    "passthroughForward"@
}

/// The header whose value carries caller-forwarded headers.
pub open spec fn forward_header_key() -> Seq<char> {
    "x-pica-passthrough-headers"@
}

/// Pairs parsed from an optional delimited value; nothing parses to none.
pub open spec fn kv_of(o: Option<Seq<char>>, sep: char) -> Seq<(Seq<char>, Seq<char>)> {
    match o {
        Option::None => parse_kv_view(Seq::empty(), sep),
        Option::Some(v) => parse_kv_view(v, sep),
    }
}

/// What preparing a request for CRUD mapping does: the reserved forward
/// query parameter and header are stripped, their values parsed as
/// delimited pairs and re-bound as ordinary query parameters and headers,
/// and the action id, when given, becomes the `id` path parameter.
pub open spec fn prepare_view(c: CrudView, id: Option<Seq<char>>) -> CrudView {
    let q1 = map_remove_view(c.query_params, forward_param_key());
    let q2 = map_extend_view(q1, kv_of(map_get_view(c.query_params, forward_param_key()), '&'));
    let h1 = map_remove_view(c.headers, forward_header_key());
    let h2 = map_extend_view(h1, kv_of(map_get_view(c.headers, forward_header_key()), ';'));
    CrudView {
        headers: h2,
        query_params: q2,
        path_params: match id {
            Option::None => c.path_params,
            Option::Some(v) => map_set_view(c.path_params, "id"@, v),
        },
        body: c.body,
    }
}

/// Prepares a request for CRUD mapping, as [`prepare_view`] says.
pub fn prepare_crud_mapping(params: RequestCrud, id: Option<&str>) -> (r: RequestCrud)
    ensures
        crud_view(r) == prepare_view(crud_view(params), match id {
            Option::None => Option::<Seq<char>>::None,
            Option::Some(s) => Option::Some(s@),
        }),
{
    let (params, removed) = params.remove_query_params("passthroughForward");
    let removed_s = match removed {
        Option::Some(v) => v,
        Option::None => String::new(),
    };
    let custom_q = parse_kv(removed_s.as_str(), '&');
    let params = params.extend_query_params(custom_q);
    let (params, removed_h) = params.remove_header("x-pica-passthrough-headers");
    let removed_hs = match removed_h {
        Option::Some(v) => v,
        Option::None => String::new(),
    };
    let custom_h = parse_kv(removed_hs.as_str(), ';');
    let params = params.extend_header(custom_h);
    let id_owned = match id {
        Option::None => Option::None,
        Option::Some(s) => Option::Some(s.to_owned()),
    };
    params.add_path_param(String::from_str("id"), id_owned)
}

/// Removing a key leaves no pair carrying it.
proof fn lemma_remove_lacks(m: Seq<(Seq<char>, Seq<char>)>, k: Seq<char>)
    ensures
        map_lacks(map_remove_view(m, k), k),
    decreases m.len(),
{
    if m.len() > 0 {
        lemma_remove_lacks(m.drop_first(), k);
    }
}

/// Removing one key keeps every other key absent.
proof fn lemma_remove_keeps_lacks(m: Seq<(Seq<char>, Seq<char>)>, k: Seq<char>, k2: Seq<char>)
    requires
        map_lacks(m, k),
    ensures
        map_lacks(map_remove_view(m, k2), k),
    decreases m.len(),
{
    if m.len() > 0 {
        assert forall|i: int| 0 <= i < m.drop_first().len() implies (#[trigger] m.drop_first()[i]).0
            != k by {
            assert(m.drop_first()[i] == m[i + 1]);
        }
        lemma_remove_keeps_lacks(m.drop_first(), k, k2);
    }
}

/// Binding pairs that avoid a key keeps that key absent.
proof fn lemma_extend_keeps_lacks(
    m: Seq<(Seq<char>, Seq<char>)>,
    pairs: Seq<(Seq<char>, Seq<char>)>,
    k: Seq<char>,
)
    requires
        map_lacks(m, k),
        map_lacks(pairs, k),
    ensures
        map_lacks(map_extend_view(m, pairs), k),
    decreases pairs.len(),
{
    if pairs.len() > 0 {
        assert(pairs[0].0 != k);
        lemma_remove_keeps_lacks(m, k, pairs[0].0);
        let m2 = map_set_view(m, pairs[0].0, pairs[0].1);
        assert forall|i: int| 0 <= i < m2.len() implies (#[trigger] m2[i]).0 != k by {
            if i < m2.len() - 1 {
                assert(m2[i] == map_remove_view(m, pairs[0].0)[i]);
            }
        }
        assert forall|i: int| 0 <= i < pairs.drop_first().len() implies (
        #[trigger] pairs.drop_first()[i]).0 != k by {
            assert(pairs.drop_first()[i] == pairs[i + 1]);
        }
        lemma_extend_keeps_lacks(m2, pairs.drop_first(), k);
    }
}

/// An absent key is not found.
proof fn lemma_get_lacks(m: Seq<(Seq<char>, Seq<char>)>, k: Seq<char>)
    requires
        map_lacks(m, k),
    ensures
        map_get_view(m, k) is None,
    decreases m.len(),
{
    if m.len() > 0 {
        assert forall|i: int| 0 <= i < m.drop_first().len() implies (#[trigger] m.drop_first()[i]).0
            != k by {
            assert(m.drop_first()[i] == m[i + 1]);
        }
        lemma_get_lacks(m.drop_first(), k);
    }
}

/// Removing an absent key changes nothing.
proof fn lemma_remove_absent(m: Seq<(Seq<char>, Seq<char>)>, k: Seq<char>)
    requires
        map_lacks(m, k),
    ensures
        map_remove_view(m, k) == m,
    decreases m.len(),
{
    if m.len() > 0 {
        assert forall|i: int| 0 <= i < m.drop_first().len() implies (#[trigger] m.drop_first()[i]).0
            != k by {
            assert(m.drop_first()[i] == m[i + 1]);
        }
        lemma_remove_absent(m.drop_first(), k);
        assert(map_remove_view(m, k) =~~= m);
    }
}

/// Removing a key distributes over a push.
proof fn lemma_remove_push(
    m: Seq<(Seq<char>, Seq<char>)>,
    p: (Seq<char>, Seq<char>),
    k: Seq<char>,
)
    ensures
        map_remove_view(m.push(p), k) == (if p.0 == k {
            map_remove_view(m, k)
        } else {
            map_remove_view(m, k).push(p)
        }),
    decreases m.len(),
{
    if m.len() == 0 {
        assert(m.push(p)[0] == p);
        assert(m.push(p).drop_first() =~= Seq::<(Seq<char>, Seq<char>)>::empty());
        assert(map_remove_view(Seq::<(Seq<char>, Seq<char>)>::empty(), k)
            == Seq::<(Seq<char>, Seq<char>)>::empty());
        if p.0 == k {
            assert(map_remove_view(m.push(p), k) =~~= map_remove_view(m, k));
        } else {
            assert(map_remove_view(m.push(p), k) =~~= map_remove_view(m, k).push(p));
        }
    } else {
        lemma_remove_push(m.drop_first(), p, k);
        assert(m.push(p)[0] == m[0]);
        assert(m.push(p).drop_first() =~= m.drop_first().push(p));
        assert(map_remove_view(m.push(p), k) == (if m[0].0 == k {
            map_remove_view(m.drop_first().push(p), k)
        } else {
            seq![m[0]] + map_remove_view(m.drop_first().push(p), k)
        }));
        assert(map_remove_view(m, k) == (if m[0].0 == k {
            map_remove_view(m.drop_first(), k)
        } else {
            seq![m[0]] + map_remove_view(m.drop_first(), k)
        }));
        if p.0 == k {
            assert(map_remove_view(m.push(p), k) =~~= map_remove_view(m, k));
        } else {
            assert(map_remove_view(m.push(p), k) =~~= map_remove_view(m, k).push(p));
        }
    }
}

/// Binding the same key and value twice is the same as once.
proof fn lemma_set_idempotent(m: Seq<(Seq<char>, Seq<char>)>, k: Seq<char>, v: Seq<char>)
    ensures
        map_set_view(map_set_view(m, k, v), k, v) == map_set_view(m, k, v),
{
    lemma_remove_lacks(m, k);
    lemma_remove_push(map_remove_view(m, k), (k, v), k);
    lemma_remove_absent(map_remove_view(m, k), k);
}

/// An empty value parses to no pairs.
proof fn lemma_parse_empty(sep: char)
    requires
        sep != '=',
    ensures
        parse_kv_view(Seq::empty(), sep) == Seq::<(Seq<char>, Seq<char>)>::empty(),
{
    let e = Seq::<char>::empty();
    assert(first_pos(e, sep, 0) == -1);
    assert(split_view(e, sep) =~~= seq![e]);
    assert(first_pos(e, '=', 0) == -1);
    assert(eq_split(e) is None);
    assert(seq![e].drop_first() =~= Seq::<Seq<char>>::empty());
    assert(seq![e][0] == e);
    assert(kv_pairs(Seq::<Seq<char>>::empty()) == Seq::<(Seq<char>, Seq<char>)>::empty());
    assert(kv_pairs(seq![e]) =~~= Seq::<(Seq<char>, Seq<char>)>::empty());
}

/// Preparing a request for CRUD mapping twice is the same as doing it
/// once, provided the forwarded values do not smuggle the reserved names
/// back in: no parsed query pair is itself named like the forward
/// parameter, and no parsed header pair like the forward header.
pub proof fn lemma_prepare_crud_mapping_idempotent(c: CrudView, id: Option<Seq<char>>)
    requires
        map_lacks(
            kv_of(map_get_view(c.query_params, forward_param_key()), '&'),
            forward_param_key(),
        ),
        map_lacks(
            kv_of(map_get_view(c.headers, forward_header_key()), ';'),
            forward_header_key(),
        ),
    ensures
        prepare_view(prepare_view(c, id), id) == prepare_view(c, id),
{
    let c1 = prepare_view(c, id);
    lemma_remove_lacks(c.query_params, forward_param_key());
    lemma_extend_keeps_lacks(
        map_remove_view(c.query_params, forward_param_key()),
        kv_of(map_get_view(c.query_params, forward_param_key()), '&'),
        forward_param_key(),
    );
    lemma_get_lacks(c1.query_params, forward_param_key());
    lemma_remove_absent(c1.query_params, forward_param_key());
    lemma_parse_empty('&');
    assert(map_extend_view(c1.query_params, kv_of(Option::None, '&')) == c1.query_params);

    lemma_remove_lacks(c.headers, forward_header_key());
    lemma_extend_keeps_lacks(
        map_remove_view(c.headers, forward_header_key()),
        kv_of(map_get_view(c.headers, forward_header_key()), ';'),
        forward_header_key(),
    );
    lemma_get_lacks(c1.headers, forward_header_key());
    lemma_remove_absent(c1.headers, forward_header_key());
    lemma_parse_empty(';');
    assert(map_extend_view(c1.headers, kv_of(Option::None, ';')) == c1.headers);

    match id {
        Option::None => {},
        Option::Some(v) => {
            lemma_set_idempotent(c.path_params, "id"@, v);
        },
    }
}

/// The secret document with the action id bound under `id`, so the
/// template pass can splice it into URLs; a non-object secret is
/// untouched.
pub open spec fn action_id_view(secret: Jv, id: Option<Seq<char>>) -> Jv {
    match (secret, id) {
        (Jv::Obj(fs), Option::Some(v)) => Jv::Obj(
            crate::json::fields_set(fs, "id"@, Jv::Str(v)),
        ),
        _ => secret,
    }
}

/// Binds the action id into the secret document, as [`action_id_view`]
/// says.
pub fn insert_action_id(secret: JsonValue, id: Option<&str>) -> (r: JsonValue)
    ensures
        jview(r) == action_id_view(jview(secret), match id {
            Option::Some(s) => Option::Some(s@),
            Option::None => Option::<Seq<char>>::None,
        }),
{
    match (secret, id) {
        (JsonValue::Obj(fields), Option::Some(v)) => {
            let fields2 = crate::json::obj_set(
                fields,
                <String as vstd::string::StringExecFns>::from_str("id"),
                JsonValue::Str(v.to_owned()),
            );
            JsonValue::Obj(fields2)
        },
        (other, _) => other,
    }
}

/// The secret document extended with every path parameter as a string
/// field, in order; a non-object secret is untouched.
pub open spec fn extended_secret_view(secret: Jv, params: Seq<(Seq<char>, Seq<char>)>) -> Jv
    decreases params.len(),
{
    if params.len() == 0 {
        secret
    } else {
        match secret {
            Jv::Obj(fs) => extended_secret_view(
                Jv::Obj(crate::json::fields_set(fs, params[0].0, Jv::Str(params[0].1))),
                params.drop_first(),
            ),
            _ => secret,
        }
    }
}

/// Extends the secret document with the request's path parameters, as
/// [`extended_secret_view`] says.
pub fn extend_secret(secret: JsonValue, params: &Vec<(String, String)>) -> (r: JsonValue)
    ensures
        jview(r) == extended_secret_view(jview(secret), pairs_view(params@)),
{
    proof {
        assert(pairs_view(params@).skip(0) =~= pairs_view(params@));
    }
    extend_secret_from(secret, params, 0)
}

fn extend_secret_from(secret: JsonValue, params: &Vec<(String, String)>, i: usize) -> (r:
    JsonValue)
    requires
        i <= params@.len(),
    ensures
        jview(r) == extended_secret_view(jview(secret), pairs_view(params@).skip(i as int)),
    decreases params@.len() - i,
{
    let ghost pv = pairs_view(params@);
    if i == params.len() {
        proof {
            assert(pv.skip(i as int) =~= Seq::<(Seq<char>, Seq<char>)>::empty());
        }
        return secret;
    }
    proof {
        assert(pv.skip(i as int)[0] == pv[i as int]);
        assert(pv.skip(i as int).drop_first() =~= pv.skip(i + 1));
        assert(pv[i as int] == (params@[i as int].0@, params@[i as int].1@));
    }
    match secret {
        JsonValue::Obj(fields) => {
            let k = params[i].0.clone();
            let v = params[i].1.clone();
            let fields2 = crate::json::obj_set(fields, k, JsonValue::Str(v));
            extend_secret_from(JsonValue::Obj(fields2), params, i + 1)
        },
        other => {
            proof {
                assert(!(jview(other) is Obj));
            }
            other
        },
    }
}


} // verus!

