//! JSON documents: a model of them, and their text as `serde_json` writes it.

use vstd::prelude::*;

verus! {

/// A JSON document as a mathematical value. An object is a map: its members
/// have no order, and a key occurs once.
pub enum JsonDoc {
    /// `null`.
    Null,
    /// `true` or `false`.
    Bool(bool),
    /// A whole number.
    Int(int),
    /// A number that is no whole number, by its text.
    Fraction(Seq<char>),
    /// A string.
    Text(Seq<char>),
    /// An array.
    Array(Seq<JsonDoc>),
    /// An object.
    Object(Map<Seq<char>, JsonDoc>),
}

impl JsonDoc {
    /// Whether every number in the document is a whole number that fits in 64
    /// bits with a sign.
    pub open spec fn in_range(self) -> bool
        decreases self,
    {
        match self {
            JsonDoc::Int(n) => i64::MIN <= n <= i64::MAX,
            JsonDoc::Fraction(_) => false,
            JsonDoc::Array(items) => forall|i: int|
                0 <= i < items.len() ==> (#[trigger] items[i]).in_range(),
            JsonDoc::Object(m) => forall|k: Seq<char>|
                m.dom().contains(k) ==> (#[trigger] m[k]).in_range(),
            _ => true,
        }
    }
}

/// A JSON document under construction. An object is a list of members; where
/// a key occurs twice, the later member counts.
#[derive(Debug)]
pub enum Json {
    /// `null`.
    Null,
    /// `true` or `false`.
    Bool(bool),
    /// A whole number.
    Int(i64),
    /// A string.
    Text(String),
    /// An array.
    Array(Vec<Json>),
    /// An object, as its members in the order in which they were added.
    Object(Vec<(String, Json)>),
}

impl Json {
    /// The number of members, for an object; zero for anything else.
    pub open spec fn member_count(self) -> int {
        match self {
            Json::Object(m) => m@.len() as int,
            _ => 0,
        }
    }

    /// Whether no object in this value has two members with one key.
    pub open spec fn distinct_keys(self) -> bool
        decreases self,
    {
        match self {
            Json::Array(v) => forall|i: int| 0 <= i < v@.len() ==> (#[trigger] v@[i]).distinct_keys(),
            Json::Object(m) => keys_distinct(m@) && forall|i: int|
                0 <= i < m@.len() ==> (#[trigger] m@[i]).1.distinct_keys(),
            _ => true,
        }
    }

    /// The document that this value stands for when, of an object, only the
    /// first `n` members are read.
    pub open spec fn doc_upto(self, n: int) -> JsonDoc
        decreases self, n,
    {
        match self {
            Json::Null => JsonDoc::Null,
            Json::Bool(b) => JsonDoc::Bool(b),
            Json::Int(i) => JsonDoc::Int(i as int),
            Json::Text(s) => JsonDoc::Text(s@),
            Json::Array(v) => JsonDoc::Array(
                Seq::new(
                    v@.len(),
                    |i: int|
                        if 0 <= i < v@.len() {
                            v@[i].doc_upto(v@[i].member_count())
                        } else {
                            JsonDoc::Null
                        },
                ),
            ),
            Json::Object(m) => if n <= 0 || n > m@.len() {
                JsonDoc::Object(Map::empty())
            } else {
                match self.doc_upto(n - 1) {
                    JsonDoc::Object(before) => JsonDoc::Object(
                        before.insert(
                            m@[n - 1].0@,
                            m@[n - 1].1.doc_upto(m@[n - 1].1.member_count()),
                        ),
                    ),
                    other => other,
                }
            },
        }
    }
}

/// No two members of the list share a key.
pub open spec fn keys_distinct(list: Seq<(String, Json)>) -> bool {
    forall|i: int, j: int|
        0 <= i < list.len() && 0 <= j < list.len() && i != j ==> (#[trigger] list[i]).0@ != (
        #[trigger] list[j]).0@
}

impl View for Json {
    type V = JsonDoc;

    /// The document that this value stands for.
    open spec fn view(&self) -> JsonDoc {
        self.doc_upto(self.member_count())
    }
}

/// The members of a document that is an object; no members otherwise.
pub open spec fn members(doc: JsonDoc) -> Map<Seq<char>, JsonDoc> {
    match doc {
        JsonDoc::Object(m) => m,
        _ => Map::empty(),
    }
}

/// Reading the first `n` members of an object gives an object, and does not
/// depend on the members behind them.
pub proof fn lemma_object_prefix(a: Vec<(String, Json)>, b: Vec<(String, Json)>, n: int)
    requires
        0 <= n <= a@.len() <= b@.len(),
        forall|i: int| 0 <= i < a@.len() ==> a@[i] == b@[i],
    ensures
        Json::Object(a).doc_upto(n) is Object,
        Json::Object(a).doc_upto(n) == Json::Object(b).doc_upto(n),
    decreases n,
{
    if n > 0 {
        lemma_object_prefix(a, b, n - 1);
    }
}

/// An object with one more member is the object before with that member
/// inserted.
pub proof fn lemma_object_push(a: Vec<(String, Json)>, b: Vec<(String, Json)>, key: String, value: Json)
    requires
        b@ == a@.push((key, value)),
    ensures
        Json::Object(b)@ == JsonDoc::Object(members(Json::Object(a)@).insert(key@, value@)),
{
    lemma_object_prefix(a, b, a@.len() as int);
    lemma_object_prefix(a, a, a@.len() as int);
}

/// An object without members is the empty object.
pub proof fn lemma_object_empty(a: Vec<(String, Json)>)
    requires
        a@.len() == 0,
    ensures
        Json::Object(a)@ == JsonDoc::Object(Map::empty()),
{
}

/// An array stands for the documents of its items, in order.
pub proof fn lemma_array_view(v: Vec<Json>)
    ensures
        Json::Array(v)@ == JsonDoc::Array(Seq::new(v@.len(), |i: int| v@[i]@)),
{
    let target = Seq::new(v@.len(), |i: int| v@[i]@);
    match Json::Array(v).doc_upto(0) {
        JsonDoc::Array(items) => {
            assert(items.len() == v@.len());
            assert forall|i: int| 0 <= i < v@.len() implies items[i] == target[i] by {}
            assert(items =~= target);
        },
        _ => {
            assert(false);
        },
    }
}

/// A JSON value of `serde_json`.
#[verifier::external_type_specification]
#[verifier::external_body]
pub struct ExJsonValue(serde_json::Value);

/// The error with which `serde_json` fails.
#[verifier::external_type_specification]
#[verifier::external_body]
pub struct ExJsonError(serde_json::Error);

/// The document that a `serde_json::Value` holds.
pub uninterp spec fn value_doc(v: serde_json::Value) -> JsonDoc;

/// The compact JSON text of a document, as `serde_json::to_string` writes it.
pub uninterp spec fn json_text(doc: JsonDoc) -> Seq<char>;

/// An optional text as a mathematical value.
pub open spec fn text_view(o: Option<String>) -> Option<Seq<char>> {
    match o {
        Some(s) => Some(s@),
        None => None,
    }
}

/// Builds the `serde_json::Value` of a document, variant by variant: numbers
/// through `Value::from`, arrays and objects by collecting their converted
/// items. The contract records that the value holds the document, for a
/// document none of whose objects has two members with one key.
#[verifier::external_body]
pub(crate) fn to_value(doc: &Json) -> (v: serde_json::Value)
    ensures
        doc.distinct_keys() ==> value_doc(v) == doc@,
{
    match doc {
        Json::Null => serde_json::Value::Null,
        Json::Bool(b) => serde_json::Value::Bool(*b),
        Json::Int(i) => serde_json::Value::from(*i),
        Json::Text(s) => serde_json::Value::String(s.clone()),
        Json::Array(items) => serde_json::Value::Array(items.iter().map(to_value).collect()),
        Json::Object(m) => serde_json::Value::Object(
            m.iter().map(|(k, v)| (k.clone(), to_value(v))).collect(),
        ),
    }
}

/// Calls `serde_json::to_string` on a value. Writing a `serde_json::Value`
/// does not fail: its keys are strings and the text goes into memory. The
/// contract names the text by the document that the value holds.
#[verifier::external_body]
pub(crate) fn value_text(v: &serde_json::Value) -> (r: Result<String, serde_json::Error>)
    ensures
        r is Ok,
        r matches Ok(s) ==> s@ == json_text(value_doc(*v)),
{
    serde_json::to_string(v)
}

/// The compact JSON text of a document none of whose objects has two members
/// with one key: exactly the text that `serde_json` writes for it.
pub fn render(doc: &Json) -> (s: String)
    ensures
        doc.distinct_keys() ==> s@ == json_text(doc@),
{
    let value = to_value(doc);
    match value_text(&value) {
        Ok(s) => s,
        Err(_) => String::new(),
    }
}

/// The keys of the members of a list.
pub open spec fn member_keys(list: Seq<(String, Json)>) -> Set<Seq<char>> {
    Set::new(|k: Seq<char>| exists|i: int| 0 <= i < list.len() && (#[trigger] list[i]).0@ == k)
}

/// No two members of the list share a key, and no object inside a member has
/// two members with one key.
pub open spec fn well_keyed(list: Seq<(String, Json)>) -> bool {
    &&& keys_distinct(list)
    &&& forall|i: int| 0 <= i < list.len() ==> (#[trigger] list[i]).1.distinct_keys()
}

/// Adds a member to an object under construction. A member under a fresh key
/// keeps the keys of the object distinct.
pub fn add_member(list: &mut Vec<(String, Json)>, key: &str, value: Json)
    ensures
        Json::Object(*final(list))@ == JsonDoc::Object(
            members(Json::Object(*old(list))@).insert(key@, value@),
        ),
        member_keys(final(list)@) == member_keys(old(list)@).insert(key@),
        well_keyed(old(list)@) && value.distinct_keys() && !member_keys(old(list)@).contains(key@)
            ==> well_keyed(final(list)@),
{
    let ghost before = *list;
    let owned = key.to_string();
    list.push((owned, value));
    proof {
        lemma_object_push(before, *list, owned, value);
        let a = before@;
        let b = list@;
        assert forall|k: Seq<char>| member_keys(b).contains(k) <==> member_keys(a).insert(
            key@,
        ).contains(k) by {
            if member_keys(b).contains(k) {
                let i = choose|i: int| 0 <= i < b.len() && (#[trigger] b[i]).0@ == k;
                if i < a.len() {
                    assert(a[i].0@ == k);
                }
            }
            if member_keys(a).contains(k) {
                let i = choose|i: int| 0 <= i < a.len() && (#[trigger] a[i]).0@ == k;
                assert(b[i].0@ == k);
            }
            if k == key@ {
                assert(b[a.len() as int].0@ == k);
            }
        }
        assert(member_keys(b) =~= member_keys(a).insert(key@));
        if well_keyed(a) && value.distinct_keys() && !member_keys(a).contains(key@) {
            assert forall|i: int, j: int|
                0 <= i < b.len() && 0 <= j < b.len() && i != j implies (#[trigger] b[i]).0@ != (
            #[trigger] b[j]).0@ by {
                if i < a.len() && j < a.len() {
                    assert(a[i].0@ != a[j].0@);
                } else if i < a.len() {
                    assert(a[i].0@ == b[i].0@);
                    assert(member_keys(a).contains(a[i].0@));
                } else {
                    assert(a[j].0@ == b[j].0@);
                    assert(member_keys(a).contains(a[j].0@));
                }
            }
            assert forall|i: int| 0 <= i < b.len() implies (#[trigger] b[i]).1.distinct_keys() by {
                if i < a.len() {
                    assert(a[i].1.distinct_keys());
                }
            }
        }
    }
}

/// An object made of a well-keyed list has distinct keys throughout.
pub proof fn lemma_well_keyed(list: Vec<(String, Json)>)
    requires
        well_keyed(list@),
    ensures
        Json::Object(list).distinct_keys(),
{
    assert forall|i: int| 0 <= i < list@.len() implies (#[trigger] list@[i]).1.distinct_keys() by {}
}

/// A list without members has no keys and is well keyed.
pub proof fn lemma_no_members(list: Vec<(String, Json)>)
    requires
        list@.len() == 0,
    ensures
        Json::Object(list)@ == JsonDoc::Object(Map::empty()),
        member_keys(list@) == Set::<Seq<char>>::empty(),
        well_keyed(list@),
{
    assert(member_keys(list@) =~= Set::<Seq<char>>::empty());
}

/// The object with a string member for every pair of a map.
pub open spec fn text_members(m: Map<Seq<char>, Seq<char>>) -> JsonDoc {
    JsonDoc::Object(m.map_values(|v: Seq<char>| JsonDoc::Text(v)))
}

/// Builds the object that holds each pair of a map as a string member.
pub fn object_of_strings(map: &crate::string_map::StringMap) -> (j: Json)
    ensures
        j@ == text_members(map@),
        j.distinct_keys(),
{
    let mut out: Vec<(String, Json)> = Vec::new();
    let mut i: usize = 0;
    let n = map.len();
    proof {
        lemma_object_empty(out);
        assert(crate::string_map::pairs_map(map.pairs().take(0)) =~= Map::<
            Seq<char>,
            Seq<char>,
        >::empty());
        assert(Map::<Seq<char>, Seq<char>>::empty().map_values(|v: Seq<char>| JsonDoc::Text(v))
            =~= Map::<Seq<char>, JsonDoc>::empty());
    }
    while i < n
        invariant
            i <= n,
            n == map.pairs().len(),
            crate::string_map::keys_unique(map.pairs()),
            Json::Object(out)@ == text_members(
                crate::string_map::pairs_map(map.pairs().take(i as int)),
            ),
            out@.len() == i,
            forall|k: int|
                0 <= k < i ==> (#[trigger] out@[k]).0@ == map.pairs()[k].0 && out@[k].1 is Text,
        decreases n - i,
    {
        let ghost before = out;
        let key = map.key_at(i).clone();
        let value = Json::Text(map.value_at(i).clone());
        out.push((key, value));
        proof {
            let p = map.pairs();
            let prefix = p.take(i as int);
            lemma_object_push(before, out, key, value);
            crate::string_map::lemma_take_step(p, i as int);
            assert(crate::string_map::pairs_map(p.take(i + 1))
                == crate::string_map::pairs_map(prefix).insert(p[i as int].0, p[i as int].1));
            assert(crate::string_map::pairs_map(prefix).insert(
                p[i as int].0,
                p[i as int].1,
            ).map_values(|v: Seq<char>| JsonDoc::Text(v)) =~= crate::string_map::pairs_map(
                prefix,
            ).map_values(|v: Seq<char>| JsonDoc::Text(v)).insert(
                p[i as int].0,
                JsonDoc::Text(p[i as int].1),
            ));
        }
        i += 1;
    }
    assert(map.pairs().take(n as int) =~= map.pairs());
    proof {
        let p = map.pairs();
        assert forall|a: int, b: int|
            0 <= a < out@.len() && 0 <= b < out@.len() && a != b implies (#[trigger] out@[a]).0@ != (
        #[trigger] out@[b]).0@ by {
            assert(p[a].0 == out@[a].0@);
            assert(p[b].0 == out@[b].0@);
        }
        assert forall|a: int| 0 <= a < out@.len() implies (#[trigger] out@[a]).1.distinct_keys() by {
            assert(out@[a].1 is Text);
        }
        lemma_well_keyed(out);
    }
    Json::Object(out)
}

/// In an object whose keys are distinct, the first `n` members are what the
/// object holds when only they are read: each under its key, and no other
/// key.
pub proof fn lemma_object_members(list: Vec<(String, Json)>, n: int)
    requires
        keys_distinct(list@),
        0 <= n <= list@.len(),
    ensures
        Json::Object(list).doc_upto(n) is Object,
        forall|i: int|
            0 <= i < n ==> members(Json::Object(list).doc_upto(n)).dom().contains(
                (#[trigger] list@[i]).0@,
            ) && members(Json::Object(list).doc_upto(n))[list@[i].0@] == list@[i].1@,
        forall|k: Seq<char>|
            members(Json::Object(list).doc_upto(n)).dom().contains(k) ==> exists|i: int|
                0 <= i < n && (#[trigger] list@[i]).0@ == k,
    decreases n,
{
    if n > 0 {
        lemma_object_members(list, n - 1);
        let before = members(Json::Object(list).doc_upto(n - 1));
        let after = members(Json::Object(list).doc_upto(n));
        assert(after == before.insert(list@[n - 1].0@, list@[n - 1].1@));
        assert forall|i: int| 0 <= i < n implies after.dom().contains((#[trigger] list@[i]).0@)
            && after[list@[i].0@] == list@[i].1@ by {
            if i < n - 1 {
                assert(list@[i].0@ != list@[n - 1].0@);
            }
        }
        assert forall|k: Seq<char>| after.dom().contains(k) implies exists|i: int|
            0 <= i < n && (#[trigger] list@[i]).0@ == k by {
            if k == list@[n - 1].0@ {
                assert(list@[n - 1].0@ == k);
            } else {
                assert(before.dom().contains(k));
                let i = choose|i: int| 0 <= i < n - 1 && (#[trigger] list@[i]).0@ == k;
                assert(list@[i].0@ == k);
            }
        }
    }
}

/// A value and its document are of one kind, and a string, a number, a truth
/// value keep what they hold.
pub proof fn lemma_view_kind(j: Json)
    ensures
        j is Null <==> j@ is Null,
        j is Bool <==> j@ is Bool,
        j is Int <==> j@ is Int,
        j is Text <==> j@ is Text,
        j is Array <==> j@ is Array,
        j is Object <==> j@ is Object,
        j matches Json::Text(s) ==> j@ == JsonDoc::Text(s@),
        j matches Json::Int(i) ==> j@ == JsonDoc::Int(i as int),
        j matches Json::Bool(b) ==> j@ == JsonDoc::Bool(b),
{
    match j {
        Json::Object(m) => {
            lemma_object_prefix(m, m, m@.len() as int);
        },
        _ => {},
    }
}

/// The document that `serde_json` reads from a text; `None` where the text
/// is not JSON.
pub uninterp spec fn json_parsed(text: Seq<char>) -> Option<JsonDoc>;

/// Calls `serde_json::from_str` for a `serde_json::Value`. The contract
/// names the document that was read by the text.
#[verifier::external_body]
pub(crate) fn parse_value(text: &str) -> (r: Result<serde_json::Value, serde_json::Error>)
    ensures
        match r {
            Ok(v) => json_parsed(text@) == Some(value_doc(v)),
            Err(_) => json_parsed(text@) is None,
        },
{
    serde_json::from_str(text)
}

/// Copies a `serde_json::Value` variant by variant. A number is taken with
/// `Number::as_i64`, which gives a number exactly for a whole number that
/// fits in 64 bits with a sign; a value that holds any other number is not
/// copied, and every other value is. The members of a `serde_json::Map` have
/// distinct keys, and so have the members of the copy.
#[verifier::external_body]
pub(crate) fn from_value(v: &serde_json::Value) -> (r: Option<Json>)
    ensures
        r is Some <==> value_doc(*v).in_range(),
        r matches Some(j) ==> j@ == value_doc(*v),
        r matches Some(j) ==> j.distinct_keys(),
{
    Some(
        match v {
            serde_json::Value::Null => Json::Null,
            serde_json::Value::Bool(b) => Json::Bool(*b),
            serde_json::Value::Number(n) => Json::Int(n.as_i64()?),
            serde_json::Value::String(s) => Json::Text(s.clone()),
            serde_json::Value::Array(a) => Json::Array(a.iter().map(from_value).collect::<Option<_>>()?),
            serde_json::Value::Object(m) => Json::Object(
                m.iter().map(|(k, v)| Some((k.clone(), from_value(v)?))).collect::<Option<_>>()?,
            ),
        },
    )
}

/// Reads a JSON text: the result stands for the document that `serde_json`
/// reads from the text, and no object in it has two members with one key.
/// `None` exactly where the text is not JSON, or holds a number that is no
/// whole number of 64 bits with a sign.
pub fn parse(text: &str) -> (r: Option<Json>)
    ensures
        match json_parsed(text@) {
            Some(doc) => if doc.in_range() {
                r matches Some(j) && j@ == doc && j.distinct_keys()
            } else {
                r is None
            },
            None => r is None,
        },
{
    match parse_value(text) {
        Ok(value) => from_value(&value),
        Err(_) => None,
    }
}

/// The member of an object with the given key. The contract speaks of an
/// object whose keys are distinct.
pub(crate) fn find_member<'a>(list: &'a Vec<(String, Json)>, key: &str) -> (r: Option<&'a Json>)
    ensures
        keys_distinct(list@) ==> match r {
            Some(v) => members(Json::Object(*list)@).dom().contains(key@) && members(
                Json::Object(*list)@,
            )[key@] == v@ && exists|i: int| 0 <= i < list@.len() && #[trigger] list@[i].1 == *v,
            None => !members(Json::Object(*list)@).dom().contains(key@),
        },
{
    let mut i: usize = 0;
    while i < list.len()
        invariant
            i <= list.len(),
            forall|k: int| 0 <= k < i ==> (#[trigger] list@[k]).0@ != key@,
        decreases list.len() - i,
    {
        if crate::text::str_eq(list[i].0.as_str(), key) {
            proof {
                if keys_distinct(list@) {
                    lemma_object_members(*list, list@.len() as int);
                    assert(list@[i as int].0@ == key@);
                }
            }
            return Some(&list[i].1);
        }
        i += 1;
    }
    proof {
        if keys_distinct(list@) {
            lemma_object_members(*list, list@.len() as int);
        }
    }
    None
}

} // verus!
