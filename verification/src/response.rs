//! The response transform pipeline: extracting the payload at the model's
//! response path, mining the pagination cursor, finalizing mapped elements
//! with the `modifyToken` fallback, and assembling the canonical envelope.
use crate::error::{
    from_err_code_view, pview, ApplicationError, ApplicationKind, ErrView, InternalError,
    InternalKind, PicaError,
};
use crate::json::{
    drop_nulls_view, field_value, fields_set, has_field, jview, jview_arr, jview_fields, obj_get,
    obj_set, select_segs, select_fields, field_index, JsonValue, Jv,
};
use crate::model::CrudAction;
use crate::strutil::{all_digits, decimal_rep, digits_value, has_prefix, parse_u32, split_view,
    split_on, to_decimal};
use vstd::prelude::*;
use vstd::string::{StrSliceExecFns, StringExecFns};

verus! {

/// The document a response path is evaluated against: the raw payload
/// wrapped under a single `body` field (null when there was none).
pub open spec fn wrapped_body(body: Option<Jv>) -> Jv {
    Jv::Obj(
        seq![
            (
                "body"@,
                match body {
                    Option::Some(b) => b,
                    Option::None => Jv::Null,
                },
            ),
        ],
    )
}

/// A usable path starts with `$.`; the rest is a dotted chain of field
/// names. That dotted subset is the whole path language here: array
/// indexing, wildcards and filters are not part of it, and a path using
/// them selects nothing.
pub open spec fn well_formed_path(path: Seq<char>) -> bool {
    path.len() >= 2 && path[0] == '$' && path[1] == '.'
}

/// The node the path selects in the wrapped payload, if any.
pub open spec fn path_selection(body: Option<Jv>, path: Seq<char>) -> Option<Jv> {
    select_segs(wrapped_body(body), split_view(path.skip(2), '.'))
}

/// Evaluates a dotted response path against the wrapped payload;
/// a path that does not start with `$.` is refused.
pub fn select_at_path(body: Option<JsonValue>, path: &str) -> (r: Result<
    Option<JsonValue>,
    (),
>)
    ensures
        match r {
            Result::Ok(sel) => well_formed_path(path@) && (match sel {
                Option::Some(x) => path_selection(crate::error::opt_jview(body), path@)
                    == Option::Some(jview(x)),
                Option::None => path_selection(crate::error::opt_jview(body), path@) is None,
            }),
            Result::Err(_) => !well_formed_path(path@),
        },
{
    let n = path.unicode_len();
    if n < 2 {
        return Result::Err(());
    }
    if !(path.get_char(0) == '$' && path.get_char(1) == '.') {
        return Result::Err(());
    }
    let rest = path.substring_char(2, n);
    let segs = split_on(rest, '.');
    let inner = match body {
        Option::Some(b) => b,
        Option::None => JsonValue::Null,
    };
    let mut fields: Vec<(String, JsonValue)> = Vec::new();
    fields.push((String::from_str("body"), inner));
    let wrapped = JsonValue::Obj(fields);
    proof {
        crate::json::lemma_jview_fields_len(wrapped->Obj_0@);
        crate::json::lemma_jview_fields_index(wrapped->Obj_0@, 0);
        assert(jview_fields(wrapped->Obj_0@) =~~= (match wrapped_body(
            crate::error::opt_jview(body),
        ) {
            Jv::Obj(fs) => fs,
            _ => Seq::empty(),
        }));
        assert(rest@ =~= path@.skip(2));
    }
    Result::Ok(select_fields(wrapped, &segs))
}

/// What extracting the response body yields for every input: no path
/// passes the payload through; a malformed path is a bad request; a path
/// that selects nothing is unprocessable for reads outside production and
/// an empty result otherwise; a selected node is the result.
pub open spec fn transform_outcome(
    path: Option<Seq<char>>,
    body: Option<Jv>,
    production: bool,
    action: CrudAction,
) -> Result<Option<Jv>, ErrView> {
    match path {
        Option::None => Result::Ok(body),
        Option::Some(p) => if !well_formed_path(p) {
            Result::Err(
                ErrView::App {
                    kind: ApplicationKind::BadRequest,
                    message: "Invalid response path"@,
                    subtype: Option::None,
                    meta: Option::None,
                },
            )
        } else {
            match path_selection(body, p) {
                Option::Some(node) => Result::Ok(Option::Some(node)),
                Option::None => {
                    let strict = !production && (action is GetMany || action is GetOne);
                    if strict {
                        Result::Err(
                            from_err_code_view(
                                422,
                                "Could not map unified model. 3rd party Connection returned an invalid response. Expected model at path "@
                                    + p + " but found none."@,
                                Option::None,
                            ),
                        )
                    } else {
                        Result::Ok(Option::None)
                    }
                },
            }
        },
    }
}

/// Extracts the payload at the model's response path, as
/// [`transform_outcome`] says.
pub fn transform_response_with_path(
    path: Option<&String>,
    body: Option<JsonValue>,
    production: bool,
    action: CrudAction,
) -> (r: Result<Option<JsonValue>, PicaError>)
    ensures
        ({
            let path_v = match path {
                Option::None => Option::<Seq<char>>::None,
                Option::Some(p) => Option::Some(p@),
            };
            match r {
                Result::Ok(sel) => transform_outcome(
                    path_v,
                    crate::error::opt_jview(body),
                    production,
                    action,
                ) == Result::<Option<Jv>, ErrView>::Ok(crate::error::opt_jview(sel)),
                Result::Err(e) => transform_outcome(
                    path_v,
                    crate::error::opt_jview(body),
                    production,
                    action,
                ) == Result::<Option<Jv>, ErrView>::Err(pview(e)),
            }
        }),
{
    let p = match path {
        Option::None => {
            return Result::Ok(body);
        },
        Option::Some(p) => p,
    };
    match select_at_path(body, p.as_str()) {
        Result::Err(_) => Result::Err(
            ApplicationError::bad_request("Invalid response path", Option::None),
        ),
        Result::Ok(Option::Some(node)) => Result::Ok(Option::Some(node)),
        Result::Ok(Option::None) => {
            let strict = !production && (match action {
                CrudAction::GetMany => true,
                CrudAction::GetOne => true,
                _ => false,
            });
            if strict {
                let mut msg = String::from_str(
                    "Could not map unified model. 3rd party Connection returned an invalid response. Expected model at path ",
                );
                msg.append(p.as_str());
                msg.append(" but found none.");
                Result::Err(PicaError::from_err_code(422, msg.as_str(), Option::None))
            } else {
                Result::Ok(Option::None)
            }
        },
    }
}

/// What mining the pagination cursor yields: nothing without a cursor
/// path or a payload, a bad request for a malformed path, the selected
/// node when the path hits, and JSON null when it misses.
pub open spec fn pagination_outcome(path: Option<Seq<char>>, body: Option<Jv>) -> Result<
    Option<Jv>,
    ErrView,
> {
    match path {
        Option::None => Result::Ok(Option::None),
        Option::Some(p) => match body {
            Option::None => Result::Ok(Option::None),
            Option::Some(_) => if !well_formed_path(p) {
                Result::Err(
                    ErrView::App {
                        kind: ApplicationKind::BadRequest,
                        message: "Invalid cursor path"@,
                        subtype: Option::None,
                        meta: Option::None,
                    },
                )
            } else {
                match path_selection(body, p) {
                    Option::Some(node) => Result::Ok(Option::Some(node)),
                    Option::None => Result::Ok(Option::Some(Jv::Null)),
                }
            },
        },
    }
}

/// Mines the pagination cursor, as [`pagination_outcome`] says.
pub fn extract_pagination(path: Option<&String>, body: Option<JsonValue>) -> (r: Result<
    Option<JsonValue>,
    PicaError,
>)
    ensures
        ({
            let path_v = match path {
                Option::None => Option::<Seq<char>>::None,
                Option::Some(p) => Option::Some(p@),
            };
            match r {
                Result::Ok(sel) => pagination_outcome(path_v, crate::error::opt_jview(body))
                    == Result::<Option<Jv>, ErrView>::Ok(crate::error::opt_jview(sel)),
                Result::Err(e) => pagination_outcome(path_v, crate::error::opt_jview(body))
                    == Result::<Option<Jv>, ErrView>::Err(pview(e)),
            }
        }),
{
    let p = match path {
        Option::None => {
            return Result::Ok(Option::None);
        },
        Option::Some(p) => p,
    };
    if body.is_none() {
        return Result::Ok(Option::None);
    }
    match select_at_path(body, p.as_str()) {
        Result::Err(_) => Result::Err(
            ApplicationError::bad_request("Invalid cursor path", Option::None),
        ),
        Result::Ok(Option::Some(node)) => Result::Ok(Option::Some(node)),
        Result::Ok(Option::None) => Result::Ok(Option::Some(JsonValue::Null)),
    }
}

/// The field a mapped element must always carry.
pub open spec fn modify_token_key() -> Seq<char> {
    "modifyToken"@
}

pub open spec fn element_id_key() -> Seq<char> {
    "id"@
}

/// What finalizing a mapped element does: nulls are dropped, and an
/// object that still lacks a `modifyToken` gains one, equal to its `id`
/// or to the empty string without an id.
pub open spec fn finalize_view(v: Jv) -> Jv {
    match drop_nulls_view(v) {
        Jv::Obj(fs) => if has_field(fs, modify_token_key()) {
            Jv::Obj(fs)
        } else {
            Jv::Obj(
                fs.push(
                    (
                        modify_token_key(),
                        match field_value(fs, element_id_key()) {
                            Option::Some(x) => x,
                            Option::None => Jv::Str(Seq::empty()),
                        },
                    ),
                ),
            )
        },
        other => other,
    }
}

/// Finalizes one mapped element, as [`finalize_view`] says.
pub fn finalize_element(elem: JsonValue) -> (r: JsonValue)
    ensures
        jview(r) == finalize_view(jview(elem)),
{
    let d = elem.drop_nulls();
    match d {
        JsonValue::Obj(fields) => {
            let has = match obj_get(&fields, "modifyToken") {
                Option::Some(_) => true,
                Option::None => false,
            };
            if has {
                JsonValue::Obj(fields)
            } else {
                let idv = match obj_get(&fields, "id") {
                    Option::Some(v) => v.duplicate(),
                    Option::None => JsonValue::Str(String::new()),
                };
                let ghost fs0 = jview_fields(fields@);
                let fields2 = obj_set(fields, String::from_str("modifyToken"), idv);
                proof {
                    assert(fields_set(fs0, modify_token_key(), jview(idv)) =~~= fs0.push(
                        (modify_token_key(), jview(idv)),
                    ));
                }
                JsonValue::Obj(fields2)
            }
        },
        other => {
            proof {
                assert(!(jview(other) is Obj));
            }
            other
        },
    }
}

/// Finalizes every mapped element of a list, in order.
pub fn finalize_elements(elems: Vec<JsonValue>) -> (r: Vec<JsonValue>)
    ensures
        r@.len() == elems@.len(),
        forall|i: int|
            0 <= i < elems@.len() ==> jview(#[trigger] r@[i]) == finalize_view(jview(elems@[i])),
{
    let mut out: Vec<JsonValue> = Vec::new();
    let mut i: usize = 0;
    while i < elems.len()
        invariant
            i <= elems@.len(),
            out@.len() == i,
            forall|j: int|
                0 <= j < i ==> jview(#[trigger] out@[j]) == finalize_view(jview(elems@[j])),
        decreases elems@.len() - i,
    {
        let e = elems[i].duplicate();
        out.push(finalize_element(e));
        i = i + 1;
    }
    out
}

proof fn lemma_field_index_exists(fs: Seq<(Seq<char>, Jv)>, k: Seq<char>)
    ensures
        has_field(fs, k) <==> exists|i: int| 0 <= i < fs.len() && (#[trigger] fs[i]).0 == k,
    decreases fs.len(),
{
    lemma_field_index_range(fs, k);
    if fs.len() > 0 {
        lemma_field_index_exists(fs.drop_first(), k);
        lemma_field_index_range(fs.drop_first(), k);
        if fs[0].0 == k {
        } else {
            if has_field(fs.drop_first(), k) {
                let i = choose|i: int|
                    0 <= i < fs.drop_first().len() && (#[trigger] fs.drop_first()[i]).0 == k;
                assert(fs[i + 1] == fs.drop_first()[i]);
            }
            if exists|i: int| 0 <= i < fs.len() && (#[trigger] fs[i]).0 == k {
                let i = choose|i: int| 0 <= i < fs.len() && (#[trigger] fs[i]).0 == k;
                assert(fs.drop_first()[i - 1] == fs[i]);
            }
        }
    }
}

proof fn lemma_field_index_range(fs: Seq<(Seq<char>, Jv)>, k: Seq<char>)
    ensures
        -1 <= field_index(fs, k) < fs.len(),
    decreases fs.len(),
{
    if fs.len() > 0 {
        lemma_field_index_range(fs.drop_first(), k);
    }
}

proof fn lemma_field_push_found(fs: Seq<(Seq<char>, Jv)>, p: (Seq<char>, Jv))
    requires
        !has_field(fs, p.0),
    ensures
        field_index(fs.push(p), p.0) == fs.len(),
        field_value(fs.push(p), p.0) == Option::Some(p.1),
    decreases fs.len(),
{
    lemma_field_index_range(fs.push(p), p.0);
    if fs.len() == 0 {
        assert(fs.push(p)[0] == p);
    } else {
        assert(fs.push(p)[0] == fs[0]);
        assert(fs.push(p).drop_first() =~= fs.drop_first().push(p));
        lemma_field_index_range(fs.drop_first(), p.0);
        lemma_field_push_found(fs.drop_first(), p);
    }
}

/// Every finalized element that is an object carries a `modifyToken`;
/// where the mapped output had none, it equals the output's `id`, or the
/// empty string when there was no id either.
pub proof fn lemma_modify_token_defined(v: Jv)
    ensures
        finalize_view(v) matches Jv::Obj(fs) ==> has_field(fs, modify_token_key()),
        (match drop_nulls_view(v) {
            Jv::Obj(fs0) => !has_field(fs0, modify_token_key()) ==> (match finalize_view(v) {
                Jv::Obj(fs) => field_value(fs, modify_token_key()) == Option::Some(
                    match field_value(fs0, element_id_key()) {
                        Option::Some(x) => x,
                        Option::None => Jv::Str(Seq::empty()),
                    },
                ),
                _ => false,
            }),
            _ => true,
        }),
{
    match drop_nulls_view(v) {
        Jv::Obj(fs0) => {
            if !has_field(fs0, modify_token_key()) {
                let p = (
                    modify_token_key(),
                    match field_value(fs0, element_id_key()) {
                        Option::Some(x) => x,
                        Option::None => Jv::Str(Seq::empty()),
                    },
                );
                lemma_field_push_found(fs0, p);
            }
        },
        _ => {},
    }
}

/// A plan for mapping the extracted payload onto the common model; the
/// shell runs the tenant script over each planned piece.
#[derive(Debug, PartialEq, Eq)]
pub enum BodyMapping {
    Elements(Vec<JsonValue>),
    Single(JsonValue),
    EmptyArray,
    EmptyObject,
    Unmapped(Option<JsonValue>),
    Dropped,
}

/// Mathematical model of a mapping plan.
pub enum BodyPlanView {
    Elements(Seq<Jv>),
    Single(Jv),
    EmptyArray,
    EmptyObject,
    Unmapped(Option<Jv>),
    Dropped,
}

pub open spec fn plan_view(p: BodyMapping) -> BodyPlanView {
    match p {
        BodyMapping::Elements(items) => BodyPlanView::Elements(jview_arr(items@)),
        BodyMapping::Single(b) => BodyPlanView::Single(jview(b)),
        BodyMapping::EmptyArray => BodyPlanView::EmptyArray,
        BodyMapping::EmptyObject => BodyPlanView::EmptyObject,
        BodyMapping::Unmapped(b) => BodyPlanView::Unmapped(crate::error::opt_jview(b)),
        BodyMapping::Dropped => BodyPlanView::Dropped,
    }
}

/// Whether the action maps its payload onto the common model.
pub open spec fn is_mapped_action(a: CrudAction) -> bool {
    a is GetMany || a is GetOne || a is Create || a is Upsert
}

/// How each action's payload is mapped: reads and write-backs run the
/// schema script per element or on the singleton (an absent payload is an
/// empty array for a list read and an empty object otherwise), counts and
/// custom calls pass through, updates and deletes drop the payload. A
/// list read always maps element-wise: a non-array payload is taken as a
/// one-element list, so its result is an array whatever came back. A
/// mapped action without a schema script is an invalid argument.
pub open spec fn mapping_plan(
    action: CrudAction,
    has_script: bool,
    body: Option<Jv>,
    message: Seq<char>,
) -> Result<BodyPlanView, ErrView> {
    if is_mapped_action(action) {
        if !has_script {
            Result::Err(
                ErrView::Int {
                    kind: InternalKind::InvalidArgument,
                    message: message,
                    subtype: Option::None,
                    meta: Option::None,
                },
            )
        } else {
            match body {
                Option::Some(Jv::Arr(items)) => Result::Ok(BodyPlanView::Elements(items)),
                Option::Some(b) => if action is GetMany {
                    Result::Ok(BodyPlanView::Elements(seq![b]))
                } else {
                    Result::Ok(BodyPlanView::Single(b))
                },
                Option::None => if action is GetMany {
                    Result::Ok(BodyPlanView::EmptyArray)
                } else {
                    Result::Ok(BodyPlanView::EmptyObject)
                },
            }
        }
    } else if action is GetCount || action is Custom {
        Result::Ok(BodyPlanView::Unmapped(body))
    } else {
        Result::Ok(BodyPlanView::Dropped)
    }
}

/// A list read never maps to a singleton: with its script in place, its
/// plan is a list of elements or the empty array, so what lands under
/// `unified` is an array whatever the upstream returned.
pub proof fn lemma_get_many_maps_to_array(body: Option<Jv>, message: Seq<char>)
    ensures
        match mapping_plan(CrudAction::GetMany, true, body, message) {
            Result::Ok(p) => p is Elements || p is EmptyArray,
            Result::Err(_) => false,
        },
{
}

/// The text of the missing-script error for a common model and platform.
pub open spec fn missing_script_message(name: Seq<char>, platform: Seq<char>, id: Seq<char>) -> Seq<
    char,
> {
    "No js for schema mapping to common model "@ + name + " for "@ + platform + ". ID: "@ + id
}

/// Plans the common-model mapping, as [`mapping_plan`] says.
pub fn plan_body_mapping(
    action: CrudAction,
    has_script: bool,
    body: Option<JsonValue>,
    common_model: &str,
    platform: &str,
    cmd_id: &str,
) -> (r: Result<BodyMapping, PicaError>)
    ensures
        ({
            let msg = missing_script_message(common_model@, platform@, cmd_id@);
            match r {
                Result::Ok(p) => mapping_plan(action, has_script, crate::error::opt_jview(body), msg)
                    == Result::<BodyPlanView, ErrView>::Ok(plan_view(p)),
                Result::Err(e) => mapping_plan(
                    action,
                    has_script,
                    crate::error::opt_jview(body),
                    msg,
                ) == Result::<BodyPlanView, ErrView>::Err(pview(e)),
            }
        }),
{
    let mapped = match action {
        CrudAction::GetMany => true,
        CrudAction::GetOne => true,
        CrudAction::Create => true,
        CrudAction::Upsert => true,
        _ => false,
    };
    if mapped {
        if !has_script {
            let mut msg = String::from_str("No js for schema mapping to common model ");
            msg.append(common_model);
            msg.append(" for ");
            msg.append(platform);
            msg.append(". ID: ");
            msg.append(cmd_id);
            return Result::Err(InternalError::invalid_argument(msg.as_str(), Option::None));
        }
        match body {
            Option::Some(JsonValue::Arr(items)) => Result::Ok(BodyMapping::Elements(items)),
            Option::Some(b) => match action {
                CrudAction::GetMany => {
                    let ghost bv = jview(b);
                    let mut items: Vec<JsonValue> = Vec::new();
                    items.push(b);
                    proof {
                        assert(items@.drop_first() =~= Seq::<JsonValue>::empty());
                        assert(crate::json::jview_arr(Seq::<JsonValue>::empty())
                            == Seq::<Jv>::empty());
                        assert(crate::json::jview_arr(items@) =~~= seq![bv]);
                    }
                    Result::Ok(BodyMapping::Elements(items))
                },
                _ => Result::Ok(BodyMapping::Single(b)),
            },
            Option::None => match action {
                CrudAction::GetMany => Result::Ok(BodyMapping::EmptyArray),
                _ => Result::Ok(BodyMapping::EmptyObject),
            },
        }
    } else {
        match action {
            CrudAction::GetCount => Result::Ok(BodyMapping::Unmapped(body)),
            CrudAction::Custom => Result::Ok(BodyMapping::Unmapped(body)),
            _ => Result::Ok(BodyMapping::Dropped),
        }
    }
}

/// Page size as recorded in the envelope; astronomically long pages are
/// clamped to the largest 32-bit value.
pub open spec fn page_size_val(n: int) -> int {
    if n > 0xffff_ffff {
        0xffff_ffff
    } else {
        n
    }
}

/// The pagination object of the envelope: only an object survives; the
/// request's `limit` parameter is folded in when it is a number, and
/// `pageSize` records how many elements came back.
pub open spec fn pagination_fields(
    pag: Option<Jv>,
    limit: Option<Seq<char>>,
    resp_len: int,
) -> Option<Jv> {
    match pag {
        Option::Some(Jv::Obj(po)) => {
            let po1 = match limit {
                Option::Some(s) => if s.len() > 0 && all_digits(s) && digits_value(s)
                    <= 0xffff_ffff {
                    fields_set(po, "limit"@, Jv::Num(digits_value(s)))
                } else {
                    po
                },
                Option::None => po,
            };
            Option::Some(Jv::Obj(fields_set(po1, "pageSize"@, Jv::Num(page_size_val(resp_len)))))
        },
        _ => Option::None,
    }
}

/// The fields of the canonical envelope, in order: `unified` when there
/// is a mapped payload (wrapped as a count for count actions),
/// `passthrough` when the action requested it and a raw payload exists,
/// `pagination` when one was produced, and always `meta`.
pub open spec fn envelope_fields(
    action: CrudAction,
    body: Option<Jv>,
    pagination: Option<Jv>,
    passthrough: Option<Jv>,
    limit: Option<Seq<char>>,
    meta: Jv,
    is_passthrough: bool,
) -> Seq<(Seq<char>, Jv)> {
    let resp_len: int = match body {
        Option::Some(Jv::Arr(a)) => a.len() as int,
        _ => 0,
    };
    (match body {
        Option::Some(b) => seq![
            (
                "unified"@,
                if action is GetCount {
                    Jv::Obj(seq![("count"@, b)])
                } else {
                    b
                },
            ),
        ],
        Option::None => Seq::empty(),
    }) + (if is_passthrough {
        match passthrough {
            Option::Some(p) => seq![("passthrough"@, p)],
            Option::None => Seq::empty(),
        }
    } else {
        Seq::empty()
    }) + (match pagination_fields(pagination, limit, resp_len) {
        Option::Some(po) => seq![("pagination"@, po)],
        Option::None => Seq::empty(),
    }) + seq![("meta"@, meta)]
}

/// The envelope together with the HTTP status and response headers to
/// answer with.
#[derive(Debug, PartialEq, Eq)]
pub struct UnifiedResponseOut {
    pub body: JsonValue,
    pub status: u16,
    pub headers: Vec<(String, String)>,
}

/// The reply's headers: the action header carrying the model
/// definition's title when passthrough was requested, the upstream
/// status echoed under `x-integrationos-statuscode` when the upstream
/// succeeded, and then every upstream header.
pub open spec fn response_headers_view(
    is_passthrough: bool,
    title: Seq<char>,
    status: u16,
    upstream: Seq<(Seq<char>, Seq<char>)>,
) -> Seq<(Seq<char>, Seq<char>)> {
    (if is_passthrough {
        seq![("x-pica-action"@, title)]
    } else {
        Seq::empty()
    }) + (if 200 <= status < 300 {
        seq![("x-integrationos-statuscode"@, decimal_rep(status as nat))]
    } else {
        Seq::empty()
    }) + upstream
}

/// Assembles the canonical envelope. A successful upstream status is
/// coerced to 200 and echoed in a response header; a failure status is
/// answered verbatim without the header.
pub fn build_unified_response(
    action_name: CrudAction,
    body: Option<JsonValue>,
    pagination: Option<JsonValue>,
    passthrough: Option<JsonValue>,
    limit_param: Option<String>,
    meta: JsonValue,
    is_passthrough: bool,
    status: u16,
    title: &str,
    upstream_headers: Vec<(String, String)>,
) -> (r: UnifiedResponseOut)
    ensures
        jview(r.body) == Jv::Obj(
            envelope_fields(
                action_name,
                crate::error::opt_jview(body),
                crate::error::opt_jview(pagination),
                crate::error::opt_jview(passthrough),
                crate::crud::opt_view(limit_param),
                jview(meta),
                is_passthrough,
            ),
        ),
        200 <= status < 300 ==> r.status == 200,
        !(200 <= status < 300) ==> r.status == status,
        crate::crud::pairs_view(r.headers@) == response_headers_view(
            is_passthrough,
            title@,
            status,
            crate::crud::pairs_view(upstream_headers@),
        ),
{
    broadcast use {crate::json::lemma_jview_fields_len, crate::json::lemma_jview_fields_index,
        crate::json::lemma_jview_arr_len};

    let ghost body_v = crate::error::opt_jview(body);
    let ghost pag_v = crate::error::opt_jview(pagination);
    let ghost pass_v = crate::error::opt_jview(passthrough);
    let ghost limit_v = crate::crud::opt_view(limit_param);
    let ghost meta_v = jview(meta);
    let resp_len: usize = match &body {
        Option::Some(JsonValue::Arr(a)) => a.len(),
        _ => 0,
    };
    proof {
        match &body {
            Option::Some(JsonValue::Arr(a)) => {
                crate::json::lemma_jview_arr_len(a@);
            },
            _ => {},
        }
        assert(resp_len as int == (match body_v {
            Option::Some(Jv::Arr(a)) => a.len() as int,
            _ => 0int,
        }));
    }
    let page_size: u32 = if resp_len > 0xffff_ffff {
        0xffff_ffff
    } else {
        resp_len as u32
    };
    let mut fields: Vec<(String, JsonValue)> = Vec::new();
    match body {
        Option::Some(b) => {
            let ghost bv = jview(b);
            let unified = match action_name {
                CrudAction::GetCount => {
                    let mut count_fields: Vec<(String, JsonValue)> = Vec::new();
                    count_fields.push((String::from_str("count"), b));
                    let u = JsonValue::Obj(count_fields);
                    proof {
                        assert(jview_fields(u->Obj_0@) =~~= seq![("count"@, bv)]);
                    }
                    u
                },
                _ => b,
            };
            proof {
                assert(jview(unified) == (if action_name is GetCount {
                    Jv::Obj(seq![("count"@, bv)])
                } else {
                    bv
                }));
            }
            fields.push((String::from_str("unified"), unified));
        },
        Option::None => {},
    }
    if is_passthrough {
        match passthrough {
            Option::Some(p) => {
                fields.push((String::from_str("passthrough"), p));
            },
            Option::None => {},
        }
    }
    match pagination {
        Option::Some(JsonValue::Obj(po)) => {
            proof {
                assert(pag_v == Option::Some(Jv::Obj(jview_fields(po@))));
            }
            let po1 = match &limit_param {
                Option::Some(s) => match parse_u32(s.as_str()) {
                    Option::Some(v) => obj_set(po, String::from_str("limit"), JsonValue::Num(
                        v as i64,
                    )),
                    Option::None => po,
                },
                Option::None => po,
            };
            let po2 = obj_set(po1, String::from_str("pageSize"), JsonValue::Num(page_size as i64));
            let pg = JsonValue::Obj(po2);
            proof {
                assert(jview(pg) == (match pagination_fields(pag_v, limit_v, resp_len as int) {
                    Option::Some(x) => x,
                    Option::None => Jv::Null,
                }));
                assert(pagination_fields(pag_v, limit_v, resp_len as int) is Some);
            }
            fields.push((String::from_str("pagination"), pg));
        },
        Option::Some(other) => {
            proof {
                assert(pag_v == Option::Some(jview(other)));
                assert(!(jview(other) is Obj));
                assert(pagination_fields(pag_v, limit_v, resp_len as int) is None);
            }
        },
        Option::None => {
            proof {
                assert(pagination_fields(pag_v, limit_v, resp_len as int) is None);
            }
        },
    }
    fields.push((String::from_str("meta"), meta));
    let out_body = JsonValue::Obj(fields);
    proof {
        assert(jview_fields(out_body->Obj_0@) =~~= envelope_fields(
            action_name,
            body_v,
            pag_v,
            pass_v,
            limit_v,
            meta_v,
            is_passthrough,
        ));
    }
    let mut reply_headers: Vec<(String, String)> = Vec::new();
    if is_passthrough {
        reply_headers.push((String::from_str("x-pica-action"), title.to_owned()));
    }
    let success = 200 <= status && status < 300;
    if success {
        reply_headers.push((String::from_str("x-integrationos-statuscode"), to_decimal(
            status as u64,
        )));
    }
    let reply_headers = crate::client::concat_pairs(reply_headers, upstream_headers);
    proof {
        assert(crate::crud::pairs_view(reply_headers@) =~~= response_headers_view(
            is_passthrough,
            title@,
            status,
            crate::crud::pairs_view(upstream_headers@),
        ));
    }
    if success {
        UnifiedResponseOut { body: out_body, status: 200, headers: reply_headers }
    } else {
        UnifiedResponseOut { body: out_body, status, headers: reply_headers }
    }
}

/// An upstream failure is answered verbatim: its status, its body and
/// its headers, with no mapping and no status header added.
pub fn respond_upstream_failure(
    body: Option<JsonValue>,
    status: u16,
    upstream_headers: Vec<(String, String)>,
) -> (r: UnifiedResponseOut)
    requires
        !(200 <= status < 300),
    ensures
        jview(r.body) == (match crate::error::opt_jview(body) {
            Option::Some(b) => b,
            Option::None => Jv::Null,
        }),
        r.status == status,
        crate::crud::pairs_view(r.headers@) == crate::crud::pairs_view(upstream_headers@),
{
    let b = match body {
        Option::Some(b) => b,
        Option::None => JsonValue::Null,
    };
    UnifiedResponseOut { body: b, status, headers: upstream_headers }
}

/// What the upstream payload yields once parsed: an intact or absent
/// payload passes through, and a parse failure becomes the status-mapped
/// error — for a status that claimed success, an internal I/O failure.
pub fn accept_upstream_body(
    status: u16,
    body: Option<JsonValue>,
    parse_failure: Option<&str>,
) -> (r: Result<Option<JsonValue>, PicaError>)
    ensures
        match r {
            Result::Ok(b) => parse_failure is None && crate::error::opt_jview(b)
                == crate::error::opt_jview(body),
            Result::Err(e) => parse_failure matches Option::Some(msg) && pview(e)
                == from_err_code_view(status, msg@, Option::None),
        },
{
    match parse_failure {
        Option::None => Result::Ok(body),
        Option::Some(msg) => Result::Err(PicaError::from_err_code(status, msg, Option::None)),
    }
}

/// The envelope carries `passthrough` exactly when the action requested
/// passthrough and a raw payload was there to echo.
pub proof fn lemma_envelope_passthrough(
    action: CrudAction,
    body: Option<Jv>,
    pagination: Option<Jv>,
    passthrough: Option<Jv>,
    limit: Option<Seq<char>>,
    meta: Jv,
    is_passthrough: bool,
)
    ensures
        has_field(
            envelope_fields(action, body, pagination, passthrough, limit, meta, is_passthrough),
            "passthrough"@,
        ) <==> (is_passthrough && passthrough is Some),
{
    reveal_strlit("unified");
    reveal_strlit("passthrough");
    reveal_strlit("pagination");
    reveal_strlit("meta");
    let env = envelope_fields(action, body, pagination, passthrough, limit, meta, is_passthrough);
    lemma_field_index_exists(env, "passthrough"@);
    if is_passthrough && passthrough is Some {
        let slot = if body is Some {
            1int
        } else {
            0int
        };
        assert(env[slot].0 == "passthrough"@);
    } else {
        assert forall|i: int| 0 <= i < env.len() implies (#[trigger] env[i]).0 != "passthrough"@ by {
            assert(env[i].0 == "unified"@ || env[i].0 == "pagination"@ || env[i].0 == "meta"@);
        }
    }
}

/// The envelope carries `unified` exactly when a mapped payload exists;
/// a list read shows an array there, and updates and deletes, whose
/// payload the pipeline drops, show nothing.
pub proof fn lemma_envelope_unified(
    action: CrudAction,
    body: Option<Jv>,
    pagination: Option<Jv>,
    passthrough: Option<Jv>,
    limit: Option<Seq<char>>,
    meta: Jv,
    is_passthrough: bool,
)
    requires
        action is GetMany ==> (match body {
            Option::Some(b) => b is Arr,
            Option::None => false,
        }),
        action is Update || action is Delete ==> body is None,
    ensures
        has_field(
            envelope_fields(action, body, pagination, passthrough, limit, meta, is_passthrough),
            "unified"@,
        ) <==> body is Some,
        action is GetMany ==> (match field_value(
            envelope_fields(action, body, pagination, passthrough, limit, meta, is_passthrough),
            "unified"@,
        ) {
            Option::Some(u) => u is Arr,
            Option::None => false,
        }),
        action is Update || action is Delete ==> !has_field(
            envelope_fields(action, body, pagination, passthrough, limit, meta, is_passthrough),
            "unified"@,
        ),
{
    reveal_strlit("unified");
    reveal_strlit("passthrough");
    reveal_strlit("pagination");
    reveal_strlit("meta");
    let env = envelope_fields(action, body, pagination, passthrough, limit, meta, is_passthrough);
    lemma_field_index_exists(env, "unified"@);
    match body {
        Option::Some(b) => {
            assert(env[0].0 == "unified"@);
            assert(field_index(env, "unified"@) == 0);
            assert(field_value(env, "unified"@) == Option::Some(env[0].1));
        },
        Option::None => {
            assert forall|i: int| 0 <= i < env.len() implies (#[trigger] env[i]).0 != "unified"@ by {
                assert(env[i].0 == "passthrough"@ || env[i].0 == "pagination"@ || env[i].0
                    == "meta"@);
            }
        },
    }
}

/// The payload re-wrapped for the request: where the model's request
/// object path names a spot under `$.body.`, the remaining dotted text
/// becomes a single-key wrapping of the payload; any other path, or no
/// path, leaves the payload as it stands.
pub open spec fn body_wrap_view(request_path: Option<Seq<char>>, body: Option<Jv>) -> Option<
    Jv,
> {
    match request_path {
        Option::Some(p) => if has_prefix(p, "$.body."@) {
            match body {
                Option::Some(b) => Option::Some(Jv::Obj(seq![(p.skip(7), b)])),
                Option::None => Option::None,
            }
        } else {
            body
        },
        Option::None => body,
    }
}

/// Re-wraps the payload under the model's request path, as
/// [`body_wrap_view`] says.
pub fn insert_body_into_path_object(request_path: Option<&String>, body: Option<JsonValue>) -> (r:
    Option<JsonValue>)
    ensures
        crate::error::opt_jview(r) == body_wrap_view(
            match request_path {
                Option::Some(p) => Option::Some(p@),
                Option::None => Option::<Seq<char>>::None,
            },
            crate::error::opt_jview(body),
        ),
{
    let p = match request_path {
        Option::None => {
            return body;
        },
        Option::Some(p) => p,
    };
    let n = p.as_str().unicode_len();
    let is_wrapped = if n >= 7 {
        crate::cache::str_eq(p.as_str().substring_char(0, 7), "$.body.")
    } else {
        false
    };
    proof {
        reveal_strlit("$.body.");
        if n >= 7 {
            assert(p@.take(7) =~= p@.subrange(0, 7));
        }
        assert(is_wrapped == has_prefix(p@, "$.body."@));
    }
    if !is_wrapped {
        return body;
    }
    let b = match body {
        Option::None => {
            return Option::None;
        },
        Option::Some(b) => b,
    };
    let rest = p.as_str().substring_char(7, n).to_owned();
    let mut fields: Vec<(String, JsonValue)> = Vec::new();
    fields.push((rest, b));
    let wrapped = JsonValue::Obj(fields);
    proof {
        crate::json::lemma_jview_fields_len(wrapped->Obj_0@);
        crate::json::lemma_jview_fields_index(wrapped->Obj_0@, 0);
        assert(jview_fields(wrapped->Obj_0@) =~~= seq![
            (p@.skip(7), match crate::error::opt_jview(body) {
                Option::Some(bb) => bb,
                Option::None => Jv::Null,
            }),
        ]);
    }
    Option::Some(wrapped)
}


} // verus!
