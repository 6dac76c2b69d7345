//! A closed, tagged value type standing for the JSON documents that block
//! workspaces are written in, together with its mathematical view.

use vstd::prelude::*;

verus! {

broadcast use vstd::std_specs::vec::group_vec_axioms;

/// One JSON-shaped value: the workspace of an automation, a block inside it,
/// or a single field value. Numbers are held as integers; the workspaces the
/// compiler reads never carry fractional numbers.
#[derive(Debug, PartialEq)]
pub enum JsonValue {
    Null,
    Bool(bool),
    Int(i64),
    Str(String),
    Arr(Vec<JsonValue>),
    Obj(Vec<(String, JsonValue)>),
}

/// The mathematical shape of a [`JsonValue`]: strings become sequences of
/// characters, vectors become sequences, so that two values with the same
/// content are the same value.
pub enum JsonV {
    Null,
    Bool(bool),
    Int(int),
    Str(Seq<char>),
    Arr(Seq<JsonV>),
    Obj(Seq<(Seq<char>, JsonV)>),
}

/// The view of each element of an array of values.
pub open spec fn arr_view(a: Seq<JsonValue>) -> Seq<JsonV>
    decreases a,
{
    if a.len() == 0 {
        Seq::empty()
    } else {
        seq![a[0].deep_view()] + arr_view(a.drop_first())
    }
}

/// The view of an object's entry list, key by key.
pub open spec fn obj_view(o: Seq<(String, JsonValue)>) -> Seq<(Seq<char>, JsonV)>
    decreases o,
{
    if o.len() == 0 {
        Seq::empty()
    } else {
        seq![(o[0].0@, o[0].1.deep_view())] + obj_view(o.drop_first())
    }
}

impl DeepView for JsonValue {
    type V = JsonV;

    open spec fn deep_view(&self) -> JsonV
        decreases self,
    {
        match self {
            JsonValue::Null => JsonV::Null,
            JsonValue::Bool(b) => JsonV::Bool(*b),
            JsonValue::Int(i) => JsonV::Int(*i as int),
            JsonValue::Str(s) => JsonV::Str(s@),
            JsonValue::Arr(a) => JsonV::Arr(arr_view(a@)),
            JsonValue::Obj(o) => JsonV::Obj(obj_view(o@)),
        }
    }
}

/// `arr_view` maps the sequence element by element.
pub proof fn lemma_arr_view(a: Seq<JsonValue>)
    ensures
        arr_view(a).len() == a.len(),
        forall|i: int| 0 <= i < a.len() ==> #[trigger] arr_view(a)[i] == a[i].deep_view(),
    decreases a,
{
    if a.len() > 0 {
        lemma_arr_view(a.drop_first());
        assert forall|i: int| 0 <= i < a.len() implies #[trigger] arr_view(a)[i]
            == a[i].deep_view() by {
            if i > 0 {
                assert(arr_view(a) == seq![a[0].deep_view()] + arr_view(a.drop_first()));
                assert((seq![a[0].deep_view()] + arr_view(a.drop_first()))[i] == arr_view(
                    a.drop_first(),
                )[i - 1]);
                assert(a.drop_first()[i - 1] == a[i]);
            }
        }
    }
}

/// `obj_view` maps the entry list entry by entry.
pub proof fn lemma_obj_view(o: Seq<(String, JsonValue)>)
    ensures
        obj_view(o).len() == o.len(),
        forall|i: int|
            0 <= i < o.len() ==> #[trigger] obj_view(o)[i] == (o[i].0@, o[i].1.deep_view()),
    decreases o,
{
    if o.len() > 0 {
        lemma_obj_view(o.drop_first());
        assert forall|i: int|
            0 <= i < o.len() implies #[trigger] obj_view(o)[i]
            == (o[i].0@, o[i].1.deep_view()) by {
            if i > 0 {
                assert(obj_view(o) == seq![(o[0].0@, o[0].1.deep_view())] + obj_view(
                    o.drop_first(),
                ));
                assert((seq![(o[0].0@, o[0].1.deep_view())] + obj_view(o.drop_first()))[i]
                    == obj_view(o.drop_first())[i - 1]);
                assert(o.drop_first()[i - 1] == o[i]);
            }
        }
    }
}

/// The value bound to `key` in an object's entry list: the first entry whose
/// key matches, as object member lookup reads it.
pub open spec fn obj_lookup(entries: Seq<(Seq<char>, JsonV)>, key: Seq<char>) -> Option<JsonV>
    decreases entries.len(),
{
    if entries.len() == 0 {
        None
    } else if entries[0].0 == key {
        Some(entries[0].1)
    } else {
        obj_lookup(entries.drop_first(), key)
    }
}

/// Member lookup on a whole value: `None` unless the value is an object with
/// an entry for `key`.
pub open spec fn member(v: JsonV, key: Seq<char>) -> Option<JsonV> {
    match v {
        JsonV::Obj(entries) => obj_lookup(entries, key),
        _ => None,
    }
}

/// An object lookup answers exactly when some entry carries the key.
pub proof fn lemma_obj_lookup_some_iff(entries: Seq<(Seq<char>, JsonV)>, key: Seq<char>)
    ensures
        (obj_lookup(entries, key) is Some) <==> (exists|i: int|
            0 <= i < entries.len() && entries[i].0 == key),
    decreases entries.len(),
{
    if entries.len() > 0 {
        lemma_obj_lookup_some_iff(entries.drop_first(), key);
        if entries[0].0 == key {
            assert(entries[0].0 == key && 0 < entries.len());
        } else {
            if obj_lookup(entries, key) is Some {
                let i = choose|i: int|
                    0 <= i < entries.drop_first().len() && entries.drop_first()[i].0 == key;
                assert(entries[i + 1].0 == key);
            }
            if exists|i: int| 0 <= i < entries.len() && entries[i].0 == key {
                let i = choose|i: int| 0 <= i < entries.len() && entries[i].0 == key;
                assert(i != 0);
                assert(entries.drop_first()[i - 1].0 == key);
            }
        }
    }
}

proof fn lemma_obj_lookup_found(entries: Seq<(Seq<char>, JsonV)>, key: Seq<char>, i: int)
    requires
        0 <= i < entries.len(),
        forall|j: int| 0 <= j < i ==> entries[j].0 != key,
        entries[i].0 == key,
    ensures
        obj_lookup(entries, key) == Some(entries[i].1),
    decreases i,
{
    if i > 0 {
        lemma_obj_lookup_found(entries.drop_first(), key, i - 1);
    }
}

proof fn lemma_obj_lookup_absent(entries: Seq<(Seq<char>, JsonV)>, key: Seq<char>)
    requires
        forall|j: int| 0 <= j < entries.len() ==> entries[j].0 != key,
    ensures
        obj_lookup(entries, key) is None,
    decreases entries.len(),
{
    if entries.len() > 0 {
        lemma_obj_lookup_absent(entries.drop_first(), key);
    }
}

impl Clone for JsonValue {
    /// A clone carries the same content: the views are equal.
    #[verifier::loop_isolation(false)]
    fn clone(&self) -> (r: Self)
        ensures
            r.deep_view() == self.deep_view(),
        decreases self,
    {
        match self {
            JsonValue::Null => JsonValue::Null,
            JsonValue::Bool(b) => JsonValue::Bool(*b),
            JsonValue::Int(i) => JsonValue::Int(*i),
            JsonValue::Str(s) => JsonValue::Str(s.clone()),
            JsonValue::Arr(a) => {
                let mut out: Vec<JsonValue> = Vec::new();
                let n = a.len();
                for i in 0..n
                    invariant
                        n == a@.len(),
                        out@.len() == i,
                        forall|j: int|
                            0 <= j < i ==> #[trigger] out@[j].deep_view() == a@[j].deep_view(),
                {
                    out.push(a[i].clone());
                }
                proof {
                    lemma_arr_view(out@);
                    lemma_arr_view(a@);
                    assert(arr_view(out@) =~= arr_view(a@));
                }
                JsonValue::Arr(out)
            },
            JsonValue::Obj(o) => {
                let mut out: Vec<(String, JsonValue)> = Vec::new();
                let n = o.len();
                for i in 0..n
                    invariant
                        n == o@.len(),
                        out@.len() == i,
                        forall|j: int|
                            0 <= j < i ==> #[trigger] out@[j].0@ == o@[j].0@ && out@[j].1.deep_view()
                                == o@[j].1.deep_view(),
                {
                    let entry = &o[i];
                    out.push((entry.0.clone(), entry.1.clone()));
                }
                proof {
                    lemma_obj_view(out@);
                    lemma_obj_view(o@);
                    assert(obj_view(out@) =~= obj_view(o@));
                }
                JsonValue::Obj(out)
            },
        }
    }
}

impl JsonValue {
    /// Looks up `key` among the entries of an object; `None` for any other
    /// shape of value.
    pub fn get<'a>(&'a self, key: &str) -> (r: Option<&'a JsonValue>)
        ensures
            match r {
                Some(v) => member(self.deep_view(), key@) == Some(v.deep_view()),
                None => member(self.deep_view(), key@) is None,
            },
    {
        match self {
            JsonValue::Obj(entries) => {
                let key_string = key.to_owned();
                let n = entries.len();
                for i in 0..n
                    invariant
                        n == entries@.len(),
                        key_string@ == key@,
                        self.deep_view() == JsonV::Obj(obj_view(entries@)),
                        forall|j: int| 0 <= j < i ==> obj_view(entries@)[j].0 != key@,
                {
                    proof {
                        lemma_obj_view(entries@);
                    }
                    if entries[i].0 == key_string {
                        proof {
                            lemma_obj_lookup_found(obj_view(entries@), key@, i as int);
                        }
                        return Some(&entries[i].1);
                    }
                }
                proof {
                    lemma_obj_view(entries@);
                    lemma_obj_lookup_absent(obj_view(entries@), key@);
                }
                None
            },
            _ => None,
        }
    }

    /// The elements of an array value; `None` for any other shape.
    pub fn as_array<'a>(&'a self) -> (r: Option<&'a Vec<JsonValue>>)
        ensures
            match r {
                Some(a) => self.deep_view() == JsonV::Arr(arr_view(a@)),
                None => !(self.deep_view() is Arr),
            },
    {
        match self {
            JsonValue::Arr(a) => Some(a),
            _ => None,
        }
    }

    /// The text of a string value; `None` for any other shape.
    pub fn as_str<'a>(&'a self) -> (r: Option<&'a String>)
        ensures
            match r {
                Some(s) => self.deep_view() == JsonV::Str(s@),
                None => !(self.deep_view() is Str),
            },
    {
        match self {
            JsonValue::Str(s) => Some(s),
            _ => None,
        }
    }

    /// The entry list of an object value; `None` for any other shape.
    pub fn as_object<'a>(&'a self) -> (r: Option<&'a Vec<(String, JsonValue)>>)
        ensures
            match r {
                Some(o) => self.deep_view() == JsonV::Obj(obj_view(o@)),
                None => !(self.deep_view() is Obj),
            },
    {
        match self {
            JsonValue::Obj(o) => Some(o),
            _ => None,
        }
    }

    /// The truth of a boolean value; `None` for any other shape.
    pub fn as_bool(&self) -> (r: Option<bool>)
        ensures
            match r {
                Some(b) => self.deep_view() == JsonV::Bool(b),
                None => !(self.deep_view() is Bool),
            },
    {
        match self {
            JsonValue::Bool(b) => Some(*b),
            _ => None,
        }
    }
}

} // verus!
