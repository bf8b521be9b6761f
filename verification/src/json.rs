//! A plain model of JSON values. Objects keep their fields as an ordered
//! list of key/value pairs; numbers are 64-bit integers, which covers
//! everything the envelope and the transform pipeline compute.
//!
//! Contracts about JSON speak of the mathematical model [`Jv`], reached
//! through the view function [`jview`]: strings become character sequences
//! and vectors become sequences, so that two structurally identical values
//! have equal views.
use vstd::prelude::*;

verus! {

#[derive(Debug, PartialEq, Eq)]
pub enum JsonValue {
    Null,
    Bool(bool),
    Num(i64),
    Str(String),
    Arr(Vec<JsonValue>),
    Obj(Vec<(String, JsonValue)>),
}

/// Mathematical model of a JSON value.
pub enum Jv {
    Null,
    Bool(bool),
    Num(int),
    Str(Seq<char>),
    Arr(Seq<Jv>),
    Obj(Seq<(Seq<char>, Jv)>),
}

pub open spec fn jview(v: JsonValue) -> Jv
    decreases v,
{
    match v {
        JsonValue::Null => Jv::Null,
        JsonValue::Bool(b) => Jv::Bool(b),
        JsonValue::Num(n) => Jv::Num(n as int),
        JsonValue::Str(s) => Jv::Str(s@),
        JsonValue::Arr(items) => Jv::Arr(jview_arr(items@)),
        JsonValue::Obj(fields) => Jv::Obj(jview_fields(fields@)),
    }
}

pub open spec fn jview_arr(s: Seq<JsonValue>) -> Seq<Jv>
    decreases s,
{
    if s.len() == 0 {
        Seq::empty()
    } else {
        seq![jview(s[0])] + jview_arr(s.drop_first())
    }
}

pub open spec fn jview_fields(s: Seq<(String, JsonValue)>) -> Seq<(Seq<char>, Jv)>
    decreases s,
{
    if s.len() == 0 {
        Seq::empty()
    } else {
        seq![(s[0].0@, jview(s[0].1))] + jview_fields(s.drop_first())
    }
}

pub broadcast proof fn lemma_jview_arr_len(s: Seq<JsonValue>)
    ensures
        #[trigger] jview_arr(s).len() == s.len(),
    decreases s,
{
    if s.len() > 0 {
        lemma_jview_arr_len(s.drop_first());
    }
}

pub broadcast proof fn lemma_jview_arr_index(s: Seq<JsonValue>, i: int)
    requires
        0 <= i < s.len(),
    ensures
        #[trigger] jview_arr(s)[i] == jview(s[i]),
    decreases s,
{
    lemma_jview_arr_len(s);
    if i > 0 {
        lemma_jview_arr_index(s.drop_first(), i - 1);
    }
}

pub broadcast proof fn lemma_jview_fields_len(s: Seq<(String, JsonValue)>)
    ensures
        #[trigger] jview_fields(s).len() == s.len(),
    decreases s,
{
    if s.len() > 0 {
        lemma_jview_fields_len(s.drop_first());
    }
}

pub broadcast proof fn lemma_jview_fields_index(s: Seq<(String, JsonValue)>, i: int)
    requires
        0 <= i < s.len(),
    ensures
        #[trigger] jview_fields(s)[i] == (s[i].0@, jview(s[i].1)),
    decreases s,
{
    lemma_jview_fields_len(s);
    if i > 0 {
        lemma_jview_fields_index(s.drop_first(), i - 1);
    }
}

impl JsonValue {
    /// Structurally identical copy.
    pub fn duplicate(&self) -> (r: JsonValue)
        ensures
            jview(r) == jview(*self),
        decreases *self,
    {
        broadcast use {lemma_jview_arr_len, lemma_jview_arr_index, lemma_jview_fields_len, lemma_jview_fields_index};
        match self {
            JsonValue::Null => JsonValue::Null,
            JsonValue::Bool(b) => JsonValue::Bool(*b),
            JsonValue::Num(n) => JsonValue::Num(*n),
            JsonValue::Str(s) => JsonValue::Str(s.clone()),
            JsonValue::Arr(items) => {
                let mut out: Vec<JsonValue> = Vec::new();
                let mut i: usize = 0;
                while i < items.len()
                    invariant
                        *self == JsonValue::Arr(*items),
                        i <= items@.len(),
                        out@.len() == i,
                        forall|j: int|
                            0 <= j < i ==> jview(#[trigger] out@[j]) == jview(items@[j]),
                    decreases items@.len() - i,
                {
                    proof {
                        assert(decreases_to!(*self => (*self)->Arr_0));
                        assert((*self)->Arr_0 == *items);
                        assert(decreases_to!(*items => items@));
                        assert(decreases_to!(items@ => items@[i as int]));
                        assert(decreases_to!(*self => items@[i as int]));
                    }
                    out.push(items[i].duplicate());
                    i = i + 1;
                }
                proof {
                    assert(jview_arr(out@) =~~= jview_arr(items@));
                }
                JsonValue::Arr(out)
            },
            JsonValue::Obj(fields) => {
                let mut out: Vec<(String, JsonValue)> = Vec::new();
                let mut i: usize = 0;
                while i < fields.len()
                    invariant
                        *self == JsonValue::Obj(*fields),
                        i <= fields@.len(),
                        out@.len() == i,
                        forall|j: int|
                            0 <= j < i ==> (#[trigger] out@[j]).0@ == fields@[j].0@ && jview(
                                out@[j].1,
                            ) == jview(fields@[j].1),
                    decreases fields@.len() - i,
                {
                    proof {
                        assert(decreases_to!(*self => (*self)->Obj_0));
                        assert((*self)->Obj_0 == *fields);
                        assert(decreases_to!(*fields => fields@));
                        assert(decreases_to!(fields@ => fields@[i as int]));
                        assert(decreases_to!(fields@[i as int] => fields@[i as int].1));
                        assert(decreases_to!(*self => fields@[i as int].1));
                    }
                    let v = fields[i].1.duplicate();
                    let k = fields[i].0.clone();
                    out.push((k, v));
                    i = i + 1;
                }
                proof {
                    assert(jview_fields(out@) =~~= jview_fields(fields@));
                }
                JsonValue::Obj(out)
            },
        }
    }
}

/// First position of a key among the fields of a modelled object.
pub open spec fn field_index(fields: Seq<(Seq<char>, Jv)>, key: Seq<char>) -> int
    decreases fields.len(),
{
    if fields.len() == 0 {
        -1
    } else if fields[0].0 == key {
        0
    } else {
        let rest = field_index(fields.drop_first(), key);
        if rest == -1 {
            -1
        } else {
            rest + 1
        }
    }
}

/// The value bound to a key in a modelled object's field list, if any.
pub open spec fn field_value(fields: Seq<(Seq<char>, Jv)>, key: Seq<char>) -> Option<Jv> {
    if field_index(fields, key) == -1 {
        Option::None
    } else {
        Option::Some(fields[field_index(fields, key)].1)
    }
}

/// Whether a modelled object's field list binds a key.
pub open spec fn has_field(fields: Seq<(Seq<char>, Jv)>, key: Seq<char>) -> bool {
    field_index(fields, key) != -1
}

impl View for JsonValue {
    type V = Jv;

    open spec fn view(&self) -> Jv {
        jview(*self)
    }
}

impl crate::cache::Duplicable for JsonValue {
    fn duplicate(&self) -> (r: Self) {
        JsonValue::duplicate(self)
    }
}

proof fn lemma_field_index_bounds(fields: Seq<(Seq<char>, Jv)>, key: Seq<char>)
    ensures
        -1 <= field_index(fields, key) < fields.len(),
    decreases fields.len(),
{
    if fields.len() > 0 {
        lemma_field_index_bounds(fields.drop_first(), key);
    }
}

proof fn lemma_field_index_take(fields: Seq<(Seq<char>, Jv)>, key: Seq<char>, i: int)
    requires
        0 < i <= fields.len(),
        field_index(fields.take(i - 1), key) == -1,
    ensures
        fields[i - 1].0 == key ==> field_index(fields.take(i), key) == i - 1,
        fields[i - 1].0 != key ==> field_index(fields.take(i), key) == -1,
    decreases i,
{
    if i == 1 {
        assert(fields.take(1).drop_first() =~= Seq::<(Seq<char>, Jv)>::empty());
        assert(fields.take(1)[0] == fields[0]);
        assert(field_index(Seq::<(Seq<char>, Jv)>::empty(), key) == -1);
    } else {
        assert(fields.take(i)[0] == fields[0]);
        assert(fields.take(i - 1)[0] == fields[0]);
        if fields[0].0 != key {
            assert(fields.take(i).drop_first() =~= fields.drop_first().take(i - 1));
            assert(fields.take(i - 1).drop_first() =~= fields.drop_first().take(i - 2));
            assert(fields.drop_first()[i - 2] == fields[i - 1]);
            lemma_field_index_bounds(fields.drop_first().take(i - 2), key);
            lemma_field_index_take(fields.drop_first(), key, i - 1);
        }
    }
}

proof fn lemma_field_index_prefix(fields: Seq<(Seq<char>, Jv)>, key: Seq<char>, i: int)
    requires
        0 < i <= fields.len(),
        field_index(fields.take(i), key) == i - 1,
    ensures
        field_index(fields, key) == i - 1,
        fields[i - 1].0 == key,
    decreases i,
{
    assert(fields.take(i)[0] == fields[0]);
    if i == 1 {
        assert(fields.take(1).drop_first() =~= Seq::<(Seq<char>, Jv)>::empty());
        assert(field_index(Seq::<(Seq<char>, Jv)>::empty(), key) == -1);
    } else {
        if fields[0].0 != key {
            assert(fields.take(i).drop_first() =~= fields.drop_first().take(i - 1));
            assert(fields.drop_first()[i - 2] == fields[i - 1]);
            lemma_field_index_prefix(fields.drop_first(), key, i - 1);
        } else {
            assert(field_index(fields.take(i), key) == 0);
        }
    }
    assert(fields.take(i)[i - 1] == fields[i - 1]);
}

/// Position of a key among an object's fields.
fn find_field(fields: &Vec<(String, JsonValue)>, key: &str) -> (r: Option<usize>)
    ensures
        match r {
            Option::Some(i) => i < fields@.len() && field_index(jview_fields(fields@), key@) == i,
            Option::None => field_index(jview_fields(fields@), key@) == -1,
        },
{
    broadcast use {lemma_jview_fields_len, lemma_jview_fields_index};

    let ghost fv = jview_fields(fields@);
    let key_owned = key.to_owned();
    let mut i: usize = 0;
    while i < fields.len()
        invariant
            i <= fields@.len(),
            fv == jview_fields(fields@),
            key_owned@ == key@,
            field_index(fv.take(i as int), key@) == -1,
        decreases fields@.len() - i,
    {
        proof {
            lemma_jview_fields_len(fields@);
            lemma_jview_fields_index(fields@, i as int);
            lemma_field_index_take(fv, key@, i + 1);
        }
        if String::eq(&fields[i].0, &key_owned) {
            proof {
                lemma_field_index_prefix(fv, key@, i + 1);
            }
            return Option::Some(i);
        }
        i = i + 1;
    }
    proof {
        assert(fv.take(fv.len() as int) =~= fv);
    }
    Option::None
}

/// The value bound to a key, borrowed.
pub fn obj_get<'a>(fields: &'a Vec<(String, JsonValue)>, key: &str) -> (r: Option<
    &'a JsonValue,
>)
    ensures
        match r {
            Option::Some(v) => field_value(jview_fields(fields@), key@) == Option::Some(jview(*v)),
            Option::None => field_value(jview_fields(fields@), key@) is None,
        },
{
    broadcast use {lemma_jview_fields_len, lemma_jview_fields_index};

    match find_field(fields, key) {
        Option::Some(i) => Option::Some(&fields[i].1),
        Option::None => Option::None,
    }
}

/// The field list with the key bound to the value: replaced in place when
/// present, appended when absent.
pub open spec fn fields_set(fields: Seq<(Seq<char>, Jv)>, key: Seq<char>, v: Jv) -> Seq<
    (Seq<char>, Jv),
> {
    let i = field_index(fields, key);
    if i >= 0 {
        fields.update(i, (key, v))
    } else {
        fields.push((key, v))
    }
}

/// Binds a key of an object's field list, as [`fields_set`] says.
pub fn obj_set(fields: Vec<(String, JsonValue)>, key: String, v: JsonValue) -> (r: Vec<
    (String, JsonValue),
>)
    ensures
        jview_fields(r@) == fields_set(jview_fields(fields@), key@, jview(v)),
{
    broadcast use {lemma_jview_fields_len, lemma_jview_fields_index};

    let ghost fv0 = jview_fields(fields@);
    let mut out = fields;
    match find_field(&out, key.as_str()) {
        Option::Some(i) => {
            out.set(i, (key, v));
            proof {
                assert(jview_fields(out@) =~~= fields_set(fv0, key@, jview(v)));
            }
            out
        },
        Option::None => {
            out.push((key, v));
            proof {
                assert(jview_fields(out@) =~~= fields_set(fv0, key@, jview(v)));
            }
            out
        },
    }
}

/// The fields whose value is not JSON null.
pub open spec fn non_null_fields(fields: Seq<(Seq<char>, Jv)>) -> Seq<(Seq<char>, Jv)>
    decreases fields.len(),
{
    if fields.len() == 0 {
        Seq::empty()
    } else if fields[0].1 is Null {
        non_null_fields(fields.drop_first())
    } else {
        seq![fields[0]] + non_null_fields(fields.drop_first())
    }
}

/// What dropping nulls does: an object loses its null-valued fields at
/// the top level, anything else is untouched.
pub open spec fn drop_nulls_view(v: Jv) -> Jv {
    match v {
        Jv::Obj(fields) => Jv::Obj(non_null_fields(fields)),
        _ => v,
    }
}

proof fn lemma_non_null_take(fields: Seq<(Seq<char>, Jv)>, i: int)
    requires
        0 < i <= fields.len(),
    ensures
        non_null_fields(fields.take(i)) == non_null_fields(fields.take(i - 1)) + (if fields[i
            - 1].1 is Null {
            Seq::<(Seq<char>, Jv)>::empty()
        } else {
            seq![fields[i - 1]]
        }),
    decreases i,
{
    if i == 1 {
        assert(fields.take(0) =~= Seq::<(Seq<char>, Jv)>::empty());
        assert(fields.take(1).drop_first() =~= Seq::<(Seq<char>, Jv)>::empty());
        assert(fields.take(1)[0] == fields[0]);
        assert(non_null_fields(Seq::<(Seq<char>, Jv)>::empty()) == Seq::<(Seq<char>, Jv)>::empty());
        assert(non_null_fields(fields.take(1)) =~~= non_null_fields(fields.take(0)) + (if fields[
            0].1 is Null {
            Seq::<(Seq<char>, Jv)>::empty()
        } else {
            seq![fields[0]]
        }));
    } else {
        lemma_non_null_take(fields.drop_first(), i - 1);
        assert(fields.take(i).drop_first() =~= fields.drop_first().take(i - 1));
        assert(fields.take(i - 1).drop_first() =~= fields.drop_first().take(i - 2));
        assert(fields.take(i)[0] == fields[0]);
        assert(fields.take(i - 1)[0] == fields[0]);
        assert(fields.drop_first()[i - 2] == fields[i - 1]);
        assert(non_null_fields(fields.take(i)) =~~= non_null_fields(fields.take(i - 1)) + (
        if fields[i - 1].1 is Null {
            Seq::<(Seq<char>, Jv)>::empty()
        } else {
            seq![fields[i - 1]]
        }));
    }
}

impl JsonValue {
    /// Drops the null-valued fields of a top-level object.
    pub fn drop_nulls(self) -> (r: JsonValue)
        ensures
            jview(r) == drop_nulls_view(jview(self)),
    {
        broadcast use {lemma_jview_fields_len, lemma_jview_fields_index};

        match self {
            JsonValue::Obj(fields) => {
                let ghost fv = jview_fields(fields@);
                let mut out: Vec<(String, JsonValue)> = Vec::new();
                let mut i: usize = 0;
                while i < fields.len()
                    invariant
                        i <= fields@.len(),
                        fv == jview_fields(fields@),
                        jview_fields(out@) == non_null_fields(fv.take(i as int)),
                    decreases fields@.len() - i,
                {
                    proof {
                        lemma_jview_fields_len(fields@);
                        lemma_jview_fields_index(fields@, i as int);
                        lemma_non_null_take(fv, i + 1);
                    }
                    let ghost out_pre = out@;
                    let is_null = match &fields[i].1 {
                        JsonValue::Null => true,
                        _ => false,
                    };
                    if !is_null {
                        let k = fields[i].0.clone();
                        let v = fields[i].1.duplicate();
                        out.push((k, v));
                    }
                    i = i + 1;
                    proof {
                        lemma_jview_fields_len(out@);
                        lemma_jview_fields_len(out_pre);
                        assert forall|j: int|
                            0 <= j < out@.len() implies #[trigger] jview_fields(out@)[j] == (
                        out@[j].0@, jview(out@[j].1)) by {
                            lemma_jview_fields_index(out@, j);
                        };
                        assert forall|j: int|
                            0 <= j < out_pre.len() implies #[trigger] jview_fields(out_pre)[j]
                            == (out_pre[j].0@, jview(out_pre[j].1)) by {
                            lemma_jview_fields_index(out_pre, j);
                        };
                        assert(jview_fields(out@) =~~= non_null_fields(fv.take(i as int)));
                    }
                }
                proof {
                    assert(fv.take(fv.len() as int) =~= fv);
                }
                JsonValue::Obj(out)
            },
            other => other,
        }
    }
}

/// The node a chain of field names selects, descending object by object.
pub open spec fn select_segs(v: Jv, segs: Seq<Seq<char>>) -> Option<Jv>
    decreases segs.len(),
{
    if segs.len() == 0 {
        Option::Some(v)
    } else {
        match v {
            Jv::Obj(fields) => match field_value(fields, segs[0]) {
                Option::Some(x) => select_segs(x, segs.drop_first()),
                Option::None => Option::None,
            },
            _ => Option::None,
        }
    }
}

/// Selects the node a chain of field names points at, consuming the
/// value; each step enters one object field.
pub fn select_fields(v: JsonValue, segs: &Vec<String>) -> (r: Option<JsonValue>)
    ensures
        match r {
            Option::Some(x) => select_segs(jview(v), segs@.map_values(|s: String| s@))
                == Option::Some(jview(x)),
            Option::None => select_segs(jview(v), segs@.map_values(|s: String| s@)) is None,
        },
{
    proof {
        assert(segs@.map_values(|s: String| s@).skip(0) =~= segs@.map_values(|s: String| s@));
    }
    select_fields_from(v, segs, 0)
}

fn select_fields_from(v: JsonValue, segs: &Vec<String>, i: usize) -> (r: Option<JsonValue>)
    requires
        i <= segs@.len(),
    ensures
        match r {
            Option::Some(x) => select_segs(jview(v), segs@.map_values(|s: String| s@).skip(
                i as int,
            )) == Option::Some(jview(x)),
            Option::None => select_segs(
                jview(v),
                segs@.map_values(|s: String| s@).skip(i as int),
            ) is None,
        },
    decreases segs@.len() - i,
{
    let ghost sv = segs@.map_values(|s: String| s@);
    if i == segs.len() {
        proof {
            assert(sv.skip(i as int) =~= Seq::<Seq<char>>::empty());
        }
        return Option::Some(v);
    }
    proof {
        assert(sv.skip(i as int)[0] == sv[i as int]);
        assert(sv.skip(i as int).drop_first() =~= sv.skip(i + 1));
        assert(sv[i as int] == segs@[i as int]@);
    }
    match v {
        JsonValue::Obj(fields) => {
            let ghost fv = jview_fields(fields@);
            match find_field(&fields, segs[i].as_str()) {
                Option::Some(idx) => {
                    proof {
                        lemma_field_index_bounds(fv, sv[i as int]);
                        lemma_jview_fields_len(fields@);
                        lemma_jview_fields_index(fields@, idx as int);
                        assert(field_value(fv, sv[i as int]) == Option::Some(fv[idx as int].1));
                    }
                    let mut fields = fields;
                    let picked = fields.remove(idx);
                    select_fields_from(picked.1, segs, i + 1)
                },
                Option::None => Option::None,
            }
        },
        _ => Option::None,
    }
}

/// The signed decimal rendering of an integer.
pub open spec fn int_chars(n: int) -> Seq<char> {
    if n < 0 {
        seq!['-'] + crate::strutil::decimal_rep((-n) as nat)
    } else {
        crate::strutil::decimal_rep(n as nat)
    }
}

/// A canonical rendering of a JSON value, the fingerprint's preimage:
/// JSON-shaped, deterministic, with string contents taken verbatim.
pub open spec fn render_view(v: Jv) -> Seq<char>
    decreases v,
{
    match v {
        Jv::Null => "null"@,
        Jv::Bool(b) => if b {
            "true"@
        } else {
            "false"@
        },
        Jv::Num(n) => int_chars(n),
        Jv::Str(s) => seq!['"'] + s + seq!['"'],
        Jv::Arr(items) => seq!['['] + render_items(items) + seq![']'],
        Jv::Obj(fields) => seq!['{'] + render_entries(fields) + seq!['}'],
    }
}

pub open spec fn render_items(items: Seq<Jv>) -> Seq<char>
    decreases items,
{
    if items.len() == 0 {
        Seq::empty()
    } else if items.len() == 1 {
        render_view(items[0])
    } else {
        render_view(items[0]) + seq![','] + render_items(items.drop_first())
    }
}

pub open spec fn render_entries(fields: Seq<(Seq<char>, Jv)>) -> Seq<char>
    decreases fields,
{
    if fields.len() == 0 {
        Seq::empty()
    } else {
        let head = seq!['"'] + fields[0].0 + seq!['"', ':'] + render_view(fields[0].1);
        if fields.len() == 1 {
            head
        } else {
            head + seq![','] + render_entries(fields.drop_first())
        }
    }
}

/// Renders a JSON value, as [`render_view`] says.
pub fn render_json(v: &JsonValue) -> (r: String)
    ensures
        r@ == render_view(jview(*v)),
    decreases *v, 0nat, 0int,
{
    match v {
        JsonValue::Null => String::from_str("null"),
        JsonValue::Bool(b) => {
            if *b {
                String::from_str("true")
            } else {
                String::from_str("false")
            }
        },
        JsonValue::Num(n) => {
            let n = *n;
            if n < 0 {
                let mut out = String::new();
                crate::strutil::push_char(&mut out, '-');
                let magnitude: u64 = ((-(n + 1)) as u64) + 1;
                proof {
                    assert(magnitude == -(n as int));
                }
                let digits = crate::strutil::to_decimal(magnitude);
                out.append(digits.as_str());
                proof {
                    assert(out@ =~= int_chars(n as int));
                }
                out
            } else {
                crate::strutil::to_decimal(n as u64)
            }
        },
        JsonValue::Str(s) => {
            let mut out = String::new();
            crate::strutil::push_char(&mut out, '"');
            out.append(s.as_str());
            crate::strutil::push_char(&mut out, '"');
            proof {
                assert(out@ =~= seq!['"'] + s@ + seq!['"']);
            }
            out
        },
        JsonValue::Arr(items) => {
            proof {
                assert(decreases_to!(*v => (*v)->Arr_0));
                assert((*v)->Arr_0 == *items);
            }
            let inner = render_items_from(items, 0);
            let mut out = String::new();
            crate::strutil::push_char(&mut out, '[');
            out.append(inner.as_str());
            crate::strutil::push_char(&mut out, ']');
            proof {
                assert(jview_arr(items@).skip(0) =~= jview_arr(items@));
                assert(out@ =~= seq!['['] + render_items(jview_arr(items@)) + seq![']']);
            }
            out
        },
        JsonValue::Obj(fields) => {
            proof {
                assert(decreases_to!(*v => (*v)->Obj_0));
                assert((*v)->Obj_0 == *fields);
            }
            let inner = render_entries_from(fields, 0);
            let mut out = String::new();
            crate::strutil::push_char(&mut out, '{');
            out.append(inner.as_str());
            crate::strutil::push_char(&mut out, '}');
            proof {
                assert(jview_fields(fields@).skip(0) =~= jview_fields(fields@));
                assert(out@ =~= seq!['{'] + render_entries(jview_fields(fields@)) + seq!['}']);
            }
            out
        },
    }
}

fn render_items_from(items: &Vec<JsonValue>, i: usize) -> (r: String)
    requires
        i <= items@.len(),
    ensures
        r@ == render_items(jview_arr(items@).skip(i as int)),
    decreases *items, 1nat, items@.len() - i,
{
    broadcast use {lemma_jview_arr_len, lemma_jview_arr_index};

    let ghost tail = jview_arr(items@).skip(i as int);
    if i == items.len() {
        proof {
            assert(tail =~= Seq::<Jv>::empty());
        }
        return String::new();
    }
    proof {
        assert(tail[0] == jview_arr(items@)[i as int]);
        assert(decreases_to!(*items => items@));
        assert(decreases_to!(items@ => items@[i as int]));
    }
    let mut out = render_json(&items[i]);
    if i + 1 == items.len() {
        proof {
            assert(tail.len() == 1);
        }
        out
    } else {
        crate::strutil::push_char(&mut out, ',');
        let rest = render_items_from(items, i + 1);
        out.append(rest.as_str());
        proof {
            assert(tail.drop_first() =~= jview_arr(items@).skip(i + 1));
            assert(out@ =~= render_items(tail));
        }
        out
    }
}

fn render_entries_from(fields: &Vec<(String, JsonValue)>, i: usize) -> (r: String)
    requires
        i <= fields@.len(),
    ensures
        r@ == render_entries(jview_fields(fields@).skip(i as int)),
    decreases *fields, 1nat, fields@.len() - i,
{
    broadcast use {lemma_jview_fields_len, lemma_jview_fields_index};

    let ghost tail = jview_fields(fields@).skip(i as int);
    if i == fields.len() {
        proof {
            assert(tail =~= Seq::<(Seq<char>, Jv)>::empty());
        }
        return String::new();
    }
    proof {
        assert(tail[0] == jview_fields(fields@)[i as int]);
        assert(decreases_to!(*fields => fields@));
        assert(decreases_to!(fields@ => fields@[i as int]));
        assert(decreases_to!(fields@[i as int] => fields@[i as int].1));
    }
    let mut out = String::new();
    crate::strutil::push_char(&mut out, '"');
    out.append(fields[i].0.as_str());
    crate::strutil::push_char(&mut out, '"');
    crate::strutil::push_char(&mut out, ':');
    let val = render_json(&fields[i].1);
    out.append(val.as_str());
    if i + 1 == fields.len() {
        proof {
            assert(tail.len() == 1);
            assert(out@ =~= render_entries(tail));
        }
        out
    } else {
        crate::strutil::push_char(&mut out, ',');
        let rest = render_entries_from(fields, i + 1);
        out.append(rest.as_str());
        proof {
            assert(tail.drop_first() =~= jview_fields(fields@).skip(i + 1));
            assert(out@ =~= render_entries(tail));
        }
        out
    }
}


} // verus!
