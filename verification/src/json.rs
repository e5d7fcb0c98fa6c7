//! JSON documents as trees of plain values.

use vstd::prelude::*;
use vstd::std_specs::cmp::PartialEqSpecImpl;

verus! {

/// A JSON number: a non-negative integer, a negative integer, or the
/// text of a number that is no integer of 64 bits, as a JSON writer prints it.
#[derive(Debug)]
pub enum JsonNumber {
    PosInt(u64),
    NegInt(i64),
    Float(String),
}

/// A JSON document. Two documents are equal where they hold the same: the
/// order of an object's members does not count.
#[derive(Debug)]
pub enum Json {
    Null,
    Bool(bool),
    Number(JsonNumber),
    String(String),
    Array(Vec<Json>),
    Object(Vec<(String, Json)>),
}

/// What a JSON number is.
pub enum NumberValue {
    PosInt(u64),
    NegInt(i64),
    Float(Seq<char>),
}

/// What a JSON document is: an object is a map from keys to documents.
pub enum JsonValue {
    Null,
    Bool(bool),
    Number(NumberValue),
    String(Seq<char>),
    Array(Seq<JsonValue>),
    Object(Map<Seq<char>, JsonValue>),
}

impl View for JsonNumber {
    type V = NumberValue;

    open spec fn view(&self) -> NumberValue {
        match self {
            JsonNumber::PosInt(n) => NumberValue::PosInt(*n),
            JsonNumber::NegInt(n) => NumberValue::NegInt(*n),
            JsonNumber::Float(text) => NumberValue::Float(canonical_float(text@)),
        }
    }
}

/// The text of a number that is no integer, zero being written without a
/// sign: `-0.0` and `0.0` are the same number.
pub open spec fn canonical_float(text: Seq<char>) -> Seq<char> {
    if text == "-0.0"@ {
        "0.0"@
    } else {
        text
    }
}

impl Json {
    /// The documents of a sequence of items, in order.
    pub open spec fn items_view(items: Seq<Json>) -> Seq<JsonValue>
        decreases items,
    {
        if items.len() == 0 {
            Seq::empty()
        } else {
            Json::items_view(items.drop_last()).push(items.last().view())
        }
    }

    /// The map that a sequence of members builds, a later member replacing an
    /// earlier one of the same key.
    pub open spec fn members_view(members: Seq<(String, Json)>) -> Map<Seq<char>, JsonValue>
        decreases members,
    {
        if members.len() == 0 {
            Map::empty()
        } else {
            Json::members_view(members.drop_last()).insert(
                members.last().0@,
                members.last().1.view(),
            )
        }
    }
}

impl View for Json {
    type V = JsonValue;

    open spec fn view(&self) -> JsonValue
        decreases self,
    {
        match self {
            Json::Null => JsonValue::Null,
            Json::Bool(b) => JsonValue::Bool(*b),
            Json::Number(n) => JsonValue::Number(n@),
            Json::String(s) => JsonValue::String(s@),
            Json::Array(items) => JsonValue::Array(Json::items_view(items@)),
            Json::Object(members) => JsonValue::Object(Json::members_view(members@)),
        }
    }
}

/// The view of a sequence of items is the sequence of their views.
pub proof fn lemma_items_view(items: Seq<Json>)
    ensures
        Json::items_view(items).len() == items.len(),
        forall|i: int| 0 <= i < items.len() ==> #[trigger] Json::items_view(items)[i] == items[i]@,
    decreases items.len(),
{
    if items.len() > 0 {
        lemma_items_view(items.drop_last());
        assert(Json::items_view(items) == Json::items_view(items.drop_last()).push(
            items.last()@,
        ));
        assert forall|i: int| 0 <= i < items.len() implies #[trigger] Json::items_view(items)[i]
            == items[i]@ by {
            if i < items.len() - 1 {
                assert(items.drop_last()[i] == items[i]);
            }
        }
    }
}

/// One more item at the end adds its view at the end.
pub proof fn lemma_items_view_push(items: Seq<Json>, item: Json)
    ensures
        Json::items_view(items.push(item)) == Json::items_view(items).push(item@),
{
    assert(items.push(item).drop_last() == items);
}

/// One more member at the end binds its key to its view.
pub proof fn lemma_members_view_push(members: Seq<(String, Json)>, key: String, value: Json)
    ensures
        Json::members_view(members.push((key, value))) == Json::members_view(members).insert(
            key@,
            value@,
        ),
{
    assert(members.push((key, value)).drop_last() == members);
}

impl Clone for JsonNumber {
    fn clone(&self) -> (r: Self)
        ensures
            r@ == self@,
    {
        match self {
            JsonNumber::PosInt(n) => JsonNumber::PosInt(*n),
            JsonNumber::NegInt(n) => JsonNumber::NegInt(*n),
            JsonNumber::Float(text) => JsonNumber::Float(text.clone()),
        }
    }
}

impl Clone for Json {
    fn clone(&self) -> (r: Self)
        ensures
            r@ == self@,
        decreases self,
    {
        match self {
            Json::Null => Json::Null,
            Json::Bool(b) => Json::Bool(*b),
            Json::Number(n) => Json::Number(n.clone()),
            Json::String(s) => Json::String(s.clone()),
            Json::Array(items) => {
                let mut out: Vec<Json> = Vec::new();
                let mut i: usize = 0;
                while i < items.len()
                    invariant
                        i <= items.len(),
                        *self == Json::Array(*items),
                        Json::items_view(out@) == Json::items_view(items@.take(i as int)),
                    decreases items.len() - i,
                {
                    proof {
                        vstd::std_specs::vec::axiom_vec_index_decreases(*items, i as int);
                        assert(decreases_to!(*self => self->Array_0));
                    }
                    let item = items[i].clone();
                    proof {
                        lemma_items_view_push(out@, item);
                        lemma_items_view_push(items@.take(i as int), items@[i as int]);
                        assert(items@.take(i as int).push(items@[i as int]) == items@.take(
                            i as int + 1,
                        ));
                    }
                    out.push(item);
                    i += 1;
                }
                assert(items@.take(items.len() as int) == items@);
                Json::Array(out)
            },
            Json::Object(members) => {
                let mut out: Vec<(String, Json)> = Vec::new();
                let mut i: usize = 0;
                while i < members.len()
                    invariant
                        i <= members.len(),
                        *self == Json::Object(*members),
                        Json::members_view(out@) == Json::members_view(members@.take(i as int)),
                    decreases members.len() - i,
                {
                    proof {
                        vstd::std_specs::vec::axiom_vec_index_decreases(*members, i as int);
                        assert(decreases_to!(*self => self->Object_0));
                    }
                    let key = members[i].0.clone();
                    let value = members[i].1.clone();
                    proof {
                        lemma_members_view_push(out@, key, value);
                        lemma_members_view_push(
                            members@.take(i as int),
                            members@[i as int].0,
                            members@[i as int].1,
                        );
                        assert(members@.take(i as int).push(
                            (members@[i as int].0, members@[i as int].1),
                        ) == members@.take(i as int + 1));
                    }
                    out.push((key, value));
                    i += 1;
                }
                assert(members@.take(members.len() as int) == members@);
                Json::Object(out)
            },
        }
    }
}

impl JsonValue {
    /// The member of an object under a key; `None` for a document that is no
    /// object or has no such member.
    pub open spec fn get(self, key: Seq<char>) -> Option<JsonValue> {
        match self {
            JsonValue::Object(members) => if members.contains_key(key) {
                Some(members[key])
            } else {
                None
            },
            _ => None,
        }
    }

    /// The one member of an object that has exactly one: its key and what the
    /// key is bound to.
    pub open spec fn single_member(self) -> Option<(Seq<char>, JsonValue)> {
        match self {
            JsonValue::Object(members) => {
                let key = choose|key: Seq<char>| members.dom() == set![key];
                if members.dom() == set![key] {
                    Some((key, members[key]))
                } else {
                    None
                }
            },
            _ => None,
        }
    }

    /// The object with one member.
    pub open spec fn tagged(tag: Seq<char>, value: JsonValue) -> JsonValue {
        JsonValue::Object(Map::empty().insert(tag, value))
    }

    /// Whether a difference is worth keeping: it is neither null nor an
    /// object without members.
    pub open spec fn is_kept(self) -> bool {
        &&& !(self is Null)
        &&& !(self matches JsonValue::Object(members) && members.dom() == Set::<
            Seq<char>,
        >::empty())
    }

    /// The member that the difference of two objects has under a key, if it
    /// has one: a member that only the modified object has, as it is; of a
    /// member that both have with different values, the difference `nested`
    /// of the values, where that is worth keeping; null for a member that
    /// only the base has.
    pub open spec fn member_diff(
        base: Map<Seq<char>, JsonValue>,
        modified: Map<Seq<char>, JsonValue>,
        key: Seq<char>,
        nested: JsonValue,
    ) -> Option<JsonValue> {
        if modified.contains_key(key) {
            if !base.contains_key(key) {
                Some(modified[key])
            } else if base[key] != modified[key] && nested.is_kept() {
                Some(nested)
            } else {
                None
            }
        } else if base.contains_key(key) {
            Some(JsonValue::Null)
        } else {
            None
        }
    }

    /// The difference between two documents. Of two objects it is the object
    /// of the members that differ; of two other documents it is null where
    /// they are the same, and the modified one where they are not.
    pub open spec fn diff(base: JsonValue, modified: JsonValue) -> JsonValue
        decreases modified,
    {
        match (base, modified) {
            (JsonValue::Object(b), JsonValue::Object(m)) => JsonValue::Object(
                Map::new(
                    |key: Seq<char>|
                        JsonValue::member_diff(
                            b,
                            m,
                            key,
                            if m.contains_key(key) {
                                JsonValue::diff(b[key], m[key])
                            } else {
                                JsonValue::Null
                            },
                        ) is Some,
                    |key: Seq<char>|
                        JsonValue::member_diff(
                            b,
                            m,
                            key,
                            if m.contains_key(key) {
                                JsonValue::diff(b[key], m[key])
                            } else {
                                JsonValue::Null
                            },
                        )->Some_0,
                ),
            ),
            _ => if base == modified {
                JsonValue::Null
            } else {
                modified
            },
        }
    }

    /// The member of the difference of two objects under a key.
    pub open spec fn diff_member(
        base: Map<Seq<char>, JsonValue>,
        modified: Map<Seq<char>, JsonValue>,
        key: Seq<char>,
    ) -> Option<JsonValue> {
        JsonValue::member_diff(
            base,
            modified,
            key,
            if modified.contains_key(key) {
                JsonValue::diff(base[key], modified[key])
            } else {
                JsonValue::Null
            },
        )
    }

    /// The text of a document that is a string.
    pub open spec fn as_str(self) -> Option<Seq<char>> {
        match self {
            JsonValue::String(text) => Some(text),
            _ => None,
        }
    }

    /// The number of a document that is a non-negative integer.
    pub open spec fn as_u64(self) -> Option<u64> {
        match self {
            JsonValue::Number(NumberValue::PosInt(n)) => Some(n),
            _ => None,
        }
    }
}

/// The map of a sequence with a last member is the map of the members before
/// it, with the last member bound.
pub proof fn lemma_members_view_unfold(members: Seq<(String, Json)>)
    requires
        members.len() > 0,
    ensures
        Json::members_view(members) == Json::members_view(members.drop_last()).insert(
            members.last().0@,
            members.last().1@,
        ),
{
}

/// Searching the members from the last one back finds what the map binds a
/// key to: a later member replaces an earlier one.
pub proof fn lemma_members_view_last(members: Seq<(String, Json)>, key: Seq<char>, i: int)
    requires
        0 <= i < members.len(),
        members[i].0@ == key,
        forall|j: int| i < j < members.len() ==> (#[trigger] members[j]).0@ != key,
    ensures
        Json::members_view(members).contains_key(key),
        Json::members_view(members)[key] == members[i].1@,
    decreases members.len(),
{
    lemma_members_view_unfold(members);
    if i < members.len() - 1 {
        assert(members.last().0@ != key);
        lemma_members_view_last(members.drop_last(), key, i);
    }
}

/// A key that no member has is not bound.
pub proof fn lemma_members_view_absent(members: Seq<(String, Json)>, key: Seq<char>)
    requires
        forall|j: int| 0 <= j < members.len() ==> (#[trigger] members[j]).0@ != key,
    ensures
        !Json::members_view(members).contains_key(key),
    decreases members.len(),
{
    if members.len() > 0 {
        lemma_members_view_unfold(members);
        assert(members.last().0@ != key);
        lemma_members_view_absent(members.drop_last(), key);
    }
}

/// Every bound key is the key of some member.
pub proof fn lemma_members_view_dom(members: Seq<(String, Json)>, key: Seq<char>)
    requires
        Json::members_view(members).contains_key(key),
    ensures
        exists|j: int| 0 <= j < members.len() && (#[trigger] members[j]).0@ == key,
    decreases members.len(),
{
    if members.len() > 0 {
        lemma_members_view_unfold(members);
        if members.last().0@ == key {
            assert(members[members.len() - 1].0@ == key);
        } else {
            lemma_members_view_dom(members.drop_last(), key);
            let j = choose|j: int|
                0 <= j < members.drop_last().len() && (#[trigger] members.drop_last()[j]).0@
                    == key;
            assert(members[j].0@ == key);
        }
    }
}

/// A document does not differ from itself: the difference is null, or an
/// object without members where the document is an object.
pub proof fn lemma_diff_of_equal(document: JsonValue)
    ensures
        !JsonValue::diff(document, document).is_kept(),
        document is Object <==> JsonValue::diff(document, document) is Object,
{
    match document {
        JsonValue::Object(members) => {
            let difference = JsonValue::diff(document, document)->Object_0;
            assert forall|key: Seq<char>| !(#[trigger] difference.dom().contains(key)) by {
                assert(JsonValue::diff_member(members, members, key) is None);
            }
            assert(difference.dom() =~= Set::<Seq<char>>::empty());
        },
        _ => {},
    }
}

/// The difference of two objects says of every key what became of its
/// member: what was added is there as it is, what was removed is there as
/// null, and what stayed the same is not there.
pub proof fn lemma_diff_members(
    base: Map<Seq<char>, JsonValue>,
    modified: Map<Seq<char>, JsonValue>,
    key: Seq<char>,
)
    ensures
        ({
            let difference = JsonValue::diff(
                JsonValue::Object(base),
                JsonValue::Object(modified),
            )->Object_0;
            &&& JsonValue::diff(JsonValue::Object(base), JsonValue::Object(modified)) is Object
            &&& !base.contains_key(key) && modified.contains_key(key) ==> difference.contains_key(
                key,
            ) && difference[key] == modified[key]
            &&& base.contains_key(key) && !modified.contains_key(key) ==> difference.contains_key(
                key,
            ) && difference[key] == JsonValue::Null
            &&& base.contains_key(key) && modified.contains_key(key) && base[key] == modified[key]
                ==> !difference.contains_key(key)
            &&& !base.contains_key(key) && !modified.contains_key(key) ==> !difference.contains_key(
                key,
            )
        }),
{
}

/// An object with one member has that member as its single one.
pub proof fn lemma_tagged_single(tag: Seq<char>, value: JsonValue)
    ensures
        JsonValue::tagged(tag, value).single_member() == Some((tag, value)),
        JsonValue::tagged(tag, value).get(tag) == Some(value),
{
    let members = Map::<Seq<char>, JsonValue>::empty().insert(tag, value);
    assert(members.dom() =~= set![tag]);
    let key = choose|key: Seq<char>| members.dom() == set![key];
    assert(set![key].contains(tag));
}

/// The keys of the map are the keys of the members.
pub proof fn lemma_members_view_has(members: Seq<(String, Json)>, i: int)
    requires
        0 <= i < members.len(),
    ensures
        Json::members_view(members).contains_key(members[i].0@),
    decreases members.len(),
{
    lemma_members_view_unfold(members);
    if i < members.len() - 1 {
        lemma_members_view_has(members.drop_last(), i);
    }
}

/// The place of the last member with a key: the member that binds the key.
pub fn position(members: &Vec<(String, Json)>, key: &str) -> (r: Option<usize>)
    ensures
        match r {
            Some(i) => {
                &&& i < members.len()
                &&& members[i as int].0@ == key@
                &&& forall|j: int| i < j < members.len() ==> (#[trigger] members[j]).0@ != key@
            },
            None => forall|j: int| 0 <= j < members.len() ==> (#[trigger] members[j]).0@ != key@,
        },
{
    let mut i: usize = members.len();
    while i > 0
        invariant
            i <= members.len(),
            forall|j: int| i <= j < members.len() ==> (#[trigger] members[j]).0@ != key@,
        decreases i,
    {
        i -= 1;
        if crate::text::str_eq(members[i].0.as_str(), key) {
            return Some(i);
        }
    }
    None
}

/// Whether two numbers are the same.
pub fn number_eq(a: &JsonNumber, b: &JsonNumber) -> (r: bool)
    ensures
        r == (a@ == b@),
{
    match (a, b) {
        (JsonNumber::PosInt(x), JsonNumber::PosInt(y)) => *x == *y,
        (JsonNumber::NegInt(x), JsonNumber::NegInt(y)) => *x == *y,
        (JsonNumber::Float(x), JsonNumber::Float(y)) => {
            let x = if crate::text::str_eq(x.as_str(), "-0.0") {
                "0.0"
            } else {
                x.as_str()
            };
            let y = if crate::text::str_eq(y.as_str(), "-0.0") {
                "0.0"
            } else {
                y.as_str()
            };
            crate::text::str_eq(x, y)
        },
        _ => false,
    }
}

/// Whether two documents are the same: the same kind of value, the same
/// items in the same order, the same members whatever their order.
pub fn json_eq(a: &Json, b: &Json) -> (r: bool)
    ensures
        r == (a@ == b@),
    decreases a,
{
    match (a, b) {
        (Json::Null, Json::Null) => true,
        (Json::Bool(x), Json::Bool(y)) => *x == *y,
        (Json::Number(x), Json::Number(y)) => number_eq(x, y),
        (Json::String(x), Json::String(y)) => crate::text::str_eq(x.as_str(), y.as_str()),
        (Json::Array(xs), Json::Array(ys)) => {
            proof {
                lemma_items_view(xs@);
                lemma_items_view(ys@);
            }
            if xs.len() != ys.len() {
                return false;
            }
            let mut i: usize = 0;
            while i < xs.len()
                invariant
                    i <= xs.len(),
                    xs.len() == ys.len(),
                    *a == Json::Array(*xs),
                    a@ == JsonValue::Array(Json::items_view(xs@)),
                    b@ == JsonValue::Array(Json::items_view(ys@)),
                    Json::items_view(xs@).len() == xs.len(),
                    Json::items_view(ys@).len() == ys.len(),
                    forall|j: int|
                        0 <= j < xs.len() ==> #[trigger] Json::items_view(xs@)[j] == xs[j]@,
                    forall|j: int|
                        0 <= j < ys.len() ==> #[trigger] Json::items_view(ys@)[j] == ys[j]@,
                    forall|j: int| 0 <= j < i ==> (#[trigger] xs[j])@ == ys[j]@,
                decreases xs.len() - i,
            {
                proof {
                    vstd::std_specs::vec::axiom_vec_index_decreases(*xs, i as int);
                    assert(decreases_to!(*a => a->Array_0));
                }
                if !json_eq(&xs[i], &ys[i]) {
                    assert(Json::items_view(xs@)[i as int] != Json::items_view(ys@)[i as int]);
                    return false;
                }
                i += 1;
            }
            assert(Json::items_view(xs@) =~= Json::items_view(ys@));
            true
        },
        (Json::Object(xm), Json::Object(ym)) => {
            let ghost am = Json::members_view(xm@);
            let ghost bm = Json::members_view(ym@);
            let mut i: usize = 0;
            while i < xm.len()
                invariant
                    i <= xm.len(),
                    *a == Json::Object(*xm),
                    am == Json::members_view(xm@),
                    bm == Json::members_view(ym@),
                    a@ == JsonValue::Object(am),
                    b@ == JsonValue::Object(bm),
                    forall|j: int|
                        0 <= j < i ==> am.contains_key((#[trigger] xm[j]).0@) && bm.contains_key(
                            xm[j].0@,
                        ) && am[xm[j].0@] == bm[xm[j].0@],
                decreases xm.len() - i,
            {
                let key = xm[i].0.as_str();
                proof {
                    lemma_members_view_has(xm@, i as int);
                }
                match position(xm, key) {
                    None => {
                        assert(xm[i as int].0@ != key@);
                        return false;
                    },
                    Some(pa) => match position(ym, key) {
                        None => {
                            proof {
                                lemma_members_view_absent(ym@, key@);
                            }
                            return false;
                        },
                        Some(pb) => {
                            proof {
                                lemma_members_view_last(xm@, key@, pa as int);
                                lemma_members_view_last(ym@, key@, pb as int);
                                vstd::std_specs::vec::axiom_vec_index_decreases(*xm, pa as int);
                                assert(decreases_to!(*a => a->Object_0));
                            }
                            if !json_eq(&xm[pa].1, &ym[pb].1) {
                                assert(am[key@] != bm[key@]);
                                return false;
                            }
                        },
                    },
                }
                i += 1;
            }
            let mut j: usize = 0;
            while j < ym.len()
                invariant
                    j <= ym.len(),
                    am == Json::members_view(xm@),
                    bm == Json::members_view(ym@),
                    a@ == JsonValue::Object(am),
                    b@ == JsonValue::Object(bm),
                    forall|t: int| 0 <= t < j ==> am.contains_key((#[trigger] ym[t]).0@),
                decreases ym.len() - j,
            {
                let key = ym[j].0.as_str();
                match position(xm, key) {
                    None => {
                        proof {
                            lemma_members_view_has(ym@, j as int);
                            lemma_members_view_absent(xm@, key@);
                        }
                        return false;
                    },
                    Some(pa) => {
                        proof {
                            lemma_members_view_last(xm@, key@, pa as int);
                        }
                    },
                }
                j += 1;
            }
            proof {
                assert forall|k: Seq<char>| #[trigger] am.dom().contains(k) implies bm.dom().contains(
                    k,
                ) && am[k] == bm[k] by {
                    lemma_members_view_dom(xm@, k);
                    let t = choose|t: int| 0 <= t < xm@.len() && (#[trigger] xm@[t]).0@ == k;
                    assert(bm.contains_key(xm[t].0@));
                }
                assert forall|k: Seq<char>| #[trigger] bm.dom().contains(k) implies am.dom().contains(
                    k,
                ) by {
                    lemma_members_view_dom(ym@, k);
                    let t = choose|t: int| 0 <= t < ym@.len() && (#[trigger] ym@[t]).0@ == k;
                    assert(am.contains_key(ym[t].0@));
                }
                assert(am.dom() =~= bm.dom());
                assert(am =~= bm);
            }
            true
        },
        _ => false,
    }
}

impl Json {
    /// The object with one member.
    pub fn tagged(tag: &str, value: Json) -> (r: Json)
        ensures
            r@ == JsonValue::tagged(tag@, value@),
    {
        let mut members: Vec<(String, Json)> = Vec::new();
        let key = String::from_str(tag);
        proof {
            lemma_members_view_push(members@, key, value);
        }
        members.push((key, value));
        Json::Object(members)
    }

    /// The one member of an object that has exactly one key.
    pub fn single_member(&self) -> (r: Option<(&str, &Json)>)
        ensures
            match r {
                Some((key, value)) => self@.single_member() == Some((key@, value@)),
                None => self@.single_member() is None,
            },
    {
        match self {
            Json::Object(members) => {
                let ghost map = Json::members_view(members@);
                if members.len() == 0 {
                    proof {
                        let key = choose|key: Seq<char>| map.dom() == set![key];
                        assert(set![key].contains(key));
                    }
                    return None;
                }
                let last = members.len() - 1;
                let key = members[last].0.as_str();
                let mut i: usize = 0;
                while i < last
                    invariant
                        i <= last,
                        last == members.len() - 1,
                        key@ == members[last as int].0@,
                        map == Json::members_view(members@),
                        self@ == JsonValue::Object(map),
                        forall|j: int| 0 <= j < i ==> (#[trigger] members[j]).0@ == key@,
                    decreases last - i,
                {
                    if !crate::text::str_eq(members[i].0.as_str(), key) {
                        proof {
                            lemma_members_view_has(members@, i as int);
                            lemma_members_view_has(members@, last as int);
                            let chosen = choose|chosen: Seq<char>| map.dom() == set![chosen];
                            if map.dom() == set![chosen] {
                                assert(set![chosen].contains(members[i as int].0@));
                                assert(set![chosen].contains(key@));
                            }
                        }
                        return None;
                    }
                    i += 1;
                }
                proof {
                    lemma_members_view_last(members@, key@, last as int);
                    assert(map.dom() =~= set![key@]) by {
                        assert forall|k: Seq<char>| map.dom().contains(k) implies k == key@ by {
                            lemma_members_view_dom(members@, k);
                        }
                    }
                    let chosen = choose|chosen: Seq<char>| map.dom() == set![chosen];
                    assert(set![chosen].contains(key@));
                }
                Some((key, &members[last].1))
            },
            _ => None,
        }
    }

    /// The member of an object under a key.
    pub fn get(&self, key: &str) -> (r: Option<&Json>)
        ensures
            match r {
                Some(value) => self@.get(key@) == Some(value@),
                None => self@.get(key@) is None,
            },
    {
        match self {
            Json::Object(members) => match position(members, key) {
                Some(i) => {
                    proof {
                        lemma_members_view_last(members@, key@, i as int);
                    }
                    Some(&members[i].1)
                },
                None => {
                    proof {
                        lemma_members_view_absent(members@, key@);
                    }
                    None
                },
            },
            _ => None,
        }
    }

    /// The text of a document that is a string.
    pub fn as_str(&self) -> (r: Option<&str>)
        ensures
            match r {
                Some(text) => self@.as_str() == Some(text@),
                None => self@.as_str() is None,
            },
    {
        match self {
            Json::String(text) => Some(text.as_str()),
            _ => None,
        }
    }

    /// The number of a document that is a non-negative integer.
    pub fn as_u64(&self) -> (r: Option<u64>)
        ensures
            r == self@.as_u64(),
    {
        match self {
            Json::Number(JsonNumber::PosInt(n)) => Some(*n),
            _ => None,
        }
    }
}

impl PartialEq for JsonNumber {
    fn eq(&self, other: &Self) -> (r: bool) {
        number_eq(self, other)
    }
}

impl PartialEqSpecImpl for JsonNumber {
    open spec fn obeys_eq_spec() -> bool {
        true
    }

    open spec fn eq_spec(&self, other: &Self) -> bool {
        self@ == other@
    }
}

impl PartialEq for Json {
    fn eq(&self, other: &Self) -> (r: bool) {
        json_eq(self, other)
    }
}

impl PartialEqSpecImpl for Json {
    open spec fn obeys_eq_spec() -> bool {
        true
    }

    open spec fn eq_spec(&self, other: &Self) -> bool {
        self@ == other@
    }
}

} // verus!
