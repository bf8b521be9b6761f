//! Route matching for passthrough dispatch. A template like `/a/:id/c`
//! matches a concrete path segment for segment, a leading-colon segment
//! matching anything. Among matching templates the one with the fewest
//! wildcards wins, first in candidate order on a tie; and a concrete path
//! is templated back onto a template by filling its wildcards.
use crate::error::{ErrView, InternalError, InternalKind, PicaError, pview, snaked};
use crate::strutil::{find_char_from, first_pos, join, join_view, split_on, split_view};
use vstd::prelude::*;
use vstd::string::{StrSliceExecFns, StringExecFns};

verus! {

/// A template segment that matches any concrete segment.
pub open spec fn seg_is_wild(t: Seq<char>) -> bool {
    t.len() > 0 && t[0] == ':'
}

/// Segment-wise match of a template against a concrete path.
pub open spec fn segs_match(t: Seq<Seq<char>>, c: Seq<Seq<char>>) -> bool {
    t.len() == c.len() && forall|i: int|
        0 <= i < t.len() ==> (seg_is_wild(#[trigger] t[i]) || t[i] == c[i])
}

/// Whether a route template matches a concrete path.
pub open spec fn route_matches(template: Seq<char>, path: Seq<char>) -> bool {
    segs_match(split_view(template, '/'), split_view(path, '/'))
}

/// Number of wildcard segments of a template.
pub open spec fn wild_count(t: Seq<Seq<char>>) -> int
    decreases t.len(),
{
    if t.len() == 0 {
        0
    } else {
        (if seg_is_wild(t[0]) {
            1int
        } else {
            0int
        }) + wild_count(t.drop_first())
    }
}

/// Specificity of a route: its wildcard count (fewer is more specific).
pub open spec fn route_wilds(template: Seq<char>) -> int {
    wild_count(split_view(template, '/'))
}

/// The best candidate at or after `i`, given the best one seen so far:
/// the first match with the fewest wildcards.
pub open spec fn best_from(
    cands: Seq<Seq<char>>,
    path: Seq<char>,
    i: int,
    best: Option<int>,
) -> Option<int>
    decreases cands.len() - i,
{
    if i < 0 || i >= cands.len() {
        best
    } else {
        let better = route_matches(cands[i], path) && (match best {
            Option::None => true,
            Option::Some(b) => route_wilds(cands[i]) < route_wilds(cands[b]),
        });
        best_from(cands, path, i + 1, if better {
            Option::Some(i)
        } else {
            best
        })
    }
}

/// The winning candidate for a concrete path, if any matches.
pub open spec fn best_match(cands: Seq<Seq<char>>, path: Seq<char>) -> Option<int> {
    best_from(cands, path, 0, Option::None)
}

/// Whether each template segment equals or wildcards the concrete one.
fn segs_match_exec(t: &Vec<String>, c: &Vec<String>) -> (r: bool)
    ensures
        r == segs_match(t@.map_values(|x: String| x@), c@.map_values(|x: String| x@)),
{
    if t.len() != c.len() {
        return false;
    }
    let mut i: usize = 0;
    while i < t.len()
        invariant
            i <= t@.len(),
            t@.len() == c@.len(),
            forall|k: int|
                0 <= k < i ==> (seg_is_wild((#[trigger] t@[k])@) || t@[k]@ == c@[k]@),
        decreases t@.len() - i,
    {
        let seg = &t[i];
        let wild = seg.as_str().unicode_len() > 0 && seg.as_str().get_char(0) == ':';
        if !wild && !String::eq(seg, &c[i]) {
            proof {
                let tv = t@.map_values(|x: String| x@);
                let cv = c@.map_values(|x: String| x@);
                assert(!(seg_is_wild(tv[i as int]) || tv[i as int] == cv[i as int]));
            }
            return false;
        }
        i = i + 1;
    }
    true
}

/// Number of wildcard segments.
fn wild_count_exec(t: &Vec<String>) -> (r: usize)
    ensures
        r == wild_count(t@.map_values(|x: String| x@)),
{
    let ghost views = t@.map_values(|x: String| x@);
    let mut count: usize = 0;
    let mut i: usize = 0;
    while i < t.len()
        invariant
            i <= t@.len(),
            views == t@.map_values(|x: String| x@),
            count <= i,
            count == wild_count(views.take(i as int)),
        decreases t@.len() - i,
    {
        let seg = &t[i];
        let wild = seg.as_str().unicode_len() > 0 && seg.as_str().get_char(0) == ':';
        if wild {
            count = count + 1;
        }
        i = i + 1;
        proof {
            lemma_wild_count_take(views, i as int);
        }
    }
    proof {
        assert(views.take(views.len() as int) =~= views);
    }
    count
}

proof fn lemma_wild_count_take(t: Seq<Seq<char>>, i: int)
    requires
        0 < i <= t.len(),
    ensures
        wild_count(t.take(i)) == wild_count(t.take(i - 1)) + (if seg_is_wild(t[i - 1]) {
            1int
        } else {
            0int
        }),
    decreases i,
{
    lemma_wild_count_last(t.take(i));
    assert(t.take(i).drop_last() =~= t.take(i - 1));
}

proof fn lemma_wild_count_last(t: Seq<Seq<char>>)
    requires
        t.len() > 0,
    ensures
        wild_count(t) == wild_count(t.drop_last()) + (if seg_is_wild(t.last()) {
            1int
        } else {
            0int
        }),
    decreases t.len(),
{
    if t.len() == 1 {
        assert(t.drop_last() =~= t.drop_first());
    } else {
        lemma_wild_count_last(t.drop_first());
        assert(t.drop_first().drop_last() =~= t.drop_last().drop_first());
        assert(t.drop_first().last() == t.last());
        assert(t.drop_last()[0] == t[0]);
    }
}

/// The first matching candidate with the fewest wildcards, if any.
pub fn match_route(path: &str, candidates: &Vec<String>) -> (r: Option<usize>)
    ensures
        match r {
            Option::Some(i) => i < candidates@.len() && best_match(
                candidates@.map_values(|x: String| x@),
                path@,
            ) == Option::Some(i as int),
            Option::None => best_match(candidates@.map_values(|x: String| x@), path@) is None,
        },
{
    let ghost cands = candidates@.map_values(|x: String| x@);
    let path_segs = split_on(path, '/');
    let mut best: Option<usize> = Option::None;
    let mut best_wilds: usize = 0;
    let mut i: usize = 0;
    while i < candidates.len()
        invariant
            i <= candidates@.len(),
            cands == candidates@.map_values(|x: String| x@),
            path_segs@.map_values(|x: String| x@) == split_view(path@, '/'),
            match best {
                Option::None => best_from(cands, path@, i as int, Option::None) == best_match(
                    cands,
                    path@,
                ),
                Option::Some(b) => b < i && best_from(cands, path@, i as int, Option::Some(b as int))
                    == best_match(cands, path@) && best_wilds == route_wilds(cands[b as int]),
            },
        decreases candidates@.len() - i,
    {
        let cand_segs = split_on(candidates[i].as_str(), '/');
        proof {
            assert(cands[i as int] == candidates@[i as int]@);
        }
        if segs_match_exec(&cand_segs, &path_segs) {
            let w = wild_count_exec(&cand_segs);
            let better = match best {
                Option::None => true,
                Option::Some(_) => w < best_wilds,
            };
            if better {
                best = Option::Some(i);
                best_wilds = w;
            }
        }
        i = i + 1;
    }
    best
}

/// The template with its wildcard segments filled from the concrete path.
pub open spec fn template_merge(t: Seq<Seq<char>>, c: Seq<Seq<char>>) -> Seq<Seq<char>> {
    Seq::new(
        t.len(),
        |i: int|
            if seg_is_wild(t[i]) && i < c.len() {
                c[i]
            } else {
                t[i]
            },
    )
}

/// Fills the wildcards of a template from the concrete path, yielding the
/// callable path.
pub fn template_route(template: &str, concrete: &str) -> (r: String)
    ensures
        r@ == join_view(
            template_merge(split_view(template@, '/'), split_view(concrete@, '/')),
            "/"@,
        ),
{
    let t_segs = split_on(template, '/');
    let c_segs = split_on(concrete, '/');
    let mut merged: Vec<String> = Vec::new();
    let ghost tv = t_segs@.map_values(|x: String| x@);
    let ghost cv = c_segs@.map_values(|x: String| x@);
    let mut i: usize = 0;
    while i < t_segs.len()
        invariant
            i <= t_segs@.len(),
            tv == t_segs@.map_values(|x: String| x@),
            cv == c_segs@.map_values(|x: String| x@),
            merged@.len() == i,
            forall|k: int|
                0 <= k < i ==> (#[trigger] merged@[k])@ == template_merge(tv, cv)[k],
        decreases t_segs@.len() - i,
    {
        let seg = &t_segs[i];
        let wild = seg.as_str().unicode_len() > 0 && seg.as_str().get_char(0) == ':';
        if wild && i < c_segs.len() {
            merged.push(c_segs[i].clone());
        } else {
            merged.push(seg.clone());
        }
        i = i + 1;
    }
    let joined = join(&merged, "/");
    proof {
        assert(merged@.map_values(|x: String| x@) =~= template_merge(tv, cv));
    }
    joined
}

/// How many candidates carry exactly this route text.
pub open spec fn count_eq(cands: Seq<Seq<char>>, t: Seq<char>) -> int
    decreases cands.len(),
{
    if cands.len() == 0 {
        0
    } else {
        (if cands[0] == t {
            1int
        } else {
            0int
        }) + count_eq(cands.drop_first(), t)
    }
}

/// First candidate equal to this route text, or -1.
pub open spec fn index_of_eq(cands: Seq<Seq<char>>, t: Seq<char>) -> int
    decreases cands.len(),
{
    if cands.len() == 0 {
        -1
    } else if cands[0] == t {
        0
    } else {
        let rest = index_of_eq(cands.drop_first(), t);
        if rest == -1 {
            -1
        } else {
            rest + 1
        }
    }
}

/// Resolves a concrete passthrough path against candidate routes: no
/// match is no result; a unique owner of the winning route is chosen;
/// several candidates sharing the winning route are refused.
pub fn resolve_route(candidates: &Vec<String>, path: &str) -> (r: Result<
    Option<usize>,
    PicaError,
>)
    ensures
        ({
            let cands = candidates@.map_values(|x: String| x@);
            match best_match(cands, path@) {
                Option::None => r matches Result::Ok(o) && o is None,
                Option::Some(m) => {
                    if count_eq(cands, cands[m]) > 1 {
                        r matches Result::Err(e) && pview(e) == (ErrView::Int {
                            kind: InternalKind::InvalidArgument,
                            message:
                                "Multiple connection model definitions found for this path"@,
                            subtype: Option::None,
                            meta: Option::None,
                        })
                    } else {
                        r matches Result::Ok(o) && o matches Option::Some(i) && i
                            == index_of_eq(cands, cands[m])
                    }
                },
            }
        }),
{
    let ghost cands = candidates@.map_values(|x: String| x@);
    let matched = match match_route(path, candidates) {
        Option::None => {
            return Result::Ok(Option::None);
        },
        Option::Some(m) => m,
    };
    let route = &candidates[matched];
    let mut count: usize = 0;
    let mut first: usize = 0;
    let mut i: usize = 0;
    while i < candidates.len()
        invariant
            i <= candidates@.len(),
            matched < candidates@.len(),
            cands == candidates@.map_values(|x: String| x@),
            route@ == cands[matched as int],
            count <= i,
            count == count_eq(cands.take(i as int), route@),
            count > 0 ==> first == index_of_eq(cands.take(i as int), route@) && first < i,
            count == 0 ==> index_of_eq(cands.take(i as int), route@) == -1,
        decreases candidates@.len() - i,
    {
        if String::eq(&candidates[i], route) {
            if count == 0 {
                first = i;
            }
            count = count + 1;
        }
        i = i + 1;
        proof {
            lemma_counts_take(cands, route@, i as int);
        }
    }
    proof {
        assert(cands.take(cands.len() as int) =~= cands);
        lemma_count_index(cands, route@);
        lemma_count_positive(cands, route@, matched as int);
    }
    if count > 1 {
        Result::Err(
            InternalError::invalid_argument(
                "Multiple connection model definitions found for this path",
                Option::None,
            ),
        )
    } else {
        Result::Ok(Option::Some(first))
    }
}

proof fn lemma_counts_take(cands: Seq<Seq<char>>, t: Seq<char>, i: int)
    requires
        0 < i <= cands.len(),
    ensures
        count_eq(cands.take(i), t) == count_eq(cands.take(i - 1), t) + (if cands[i - 1] == t {
            1int
        } else {
            0int
        }),
        index_of_eq(cands.take(i - 1), t) >= 0 ==> index_of_eq(cands.take(i), t) == index_of_eq(
            cands.take(i - 1),
            t,
        ),
        index_of_eq(cands.take(i - 1), t) == -1 && cands[i - 1] == t ==> index_of_eq(
            cands.take(i),
            t,
        ) == i - 1,
        index_of_eq(cands.take(i - 1), t) == -1 && cands[i - 1] != t ==> index_of_eq(
            cands.take(i),
            t,
        ) == -1,
    decreases i,
{
    if i == 1 {
        assert(cands.take(0) =~= Seq::<Seq<char>>::empty());
        assert(cands.take(1).drop_first() =~= Seq::<Seq<char>>::empty());
        assert(cands.take(1)[0] == cands[0]);
        assert(index_of_eq(cands.take(0), t) == -1);
        assert(index_of_eq(Seq::<Seq<char>>::empty(), t) == -1);
        if cands[0] == t {
            assert(index_of_eq(cands.take(1), t) == 0);
        } else {
            assert(index_of_eq(cands.take(1), t) == -1);
        }
    } else {
        lemma_counts_take(cands.drop_first(), t, i - 1);
        let d = cands.drop_first();
        assert(cands.take(i).drop_first() =~= d.take(i - 1));
        assert(cands.take(i - 1).drop_first() =~= d.take(i - 2));
        assert(cands.take(i)[0] == cands[0]);
        assert(cands.take(i - 1)[0] == cands[0]);
        assert(d[i - 2] == cands[i - 1]);
        lemma_index_bounds(d.take(i - 2), t);
        lemma_index_bounds(d.take(i - 1), t);
        if cands[0] == t {
            assert(index_of_eq(cands.take(i), t) == 0);
            assert(index_of_eq(cands.take(i - 1), t) == 0);
        } else {
            assert(index_of_eq(cands.take(i), t) == (if index_of_eq(d.take(i - 1), t) == -1 {
                -1int
            } else {
                index_of_eq(d.take(i - 1), t) + 1
            }));
            assert(index_of_eq(cands.take(i - 1), t) == (if index_of_eq(d.take(i - 2), t) == -1 {
                -1int
            } else {
                index_of_eq(d.take(i - 2), t) + 1
            }));
            if index_of_eq(cands.take(i - 1), t) == -1 && d[i - 2] == t {
                assert(index_of_eq(d.take(i - 2), t) == -1);
                assert(index_of_eq(d.take(i - 1), t) == i - 2);
            }
        }
    }
}

proof fn lemma_index_bounds(cands: Seq<Seq<char>>, t: Seq<char>)
    ensures
        index_of_eq(cands, t) >= -1,
    decreases cands.len(),
{
    if cands.len() > 0 {
        lemma_index_bounds(cands.drop_first(), t);
    }
}

proof fn lemma_count_positive(cands: Seq<Seq<char>>, t: Seq<char>, m: int)
    requires
        0 <= m < cands.len(),
        cands[m] == t,
    ensures
        count_eq(cands, t) >= 1,
    decreases cands.len(),
{
    if m > 0 {
        lemma_count_positive(cands.drop_first(), t, m - 1);
        lemma_count_nonneg(cands.drop_first(), t);
    } else {
        lemma_count_nonneg(cands.drop_first(), t);
    }
}

proof fn lemma_count_nonneg(cands: Seq<Seq<char>>, t: Seq<char>)
    ensures
        count_eq(cands, t) >= 0,
    decreases cands.len(),
{
    if cands.len() > 0 {
        lemma_count_nonneg(cands.drop_first(), t);
    }
}

proof fn lemma_count_index(cands: Seq<Seq<char>>, t: Seq<char>)
    ensures
        count_eq(cands, t) > 0 <==> index_of_eq(cands, t) >= 0,
        count_eq(cands, t) >= 0,
    decreases cands.len(),
{
    if cands.len() > 0 {
        lemma_count_index(cands.drop_first(), t);
    }
}

} // verus!
