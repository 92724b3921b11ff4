//! The JSON values that replies are made of.

use vstd::prelude::*;
use vstd::string::*;

use crate::text::texts;

verus! {

/// A JSON value.
pub enum Json {
    Null,
    Bool(bool),
    /// An integer: wide enough for 64 bits with or without a sign.
    Number(i128),
    Text(String),
    List(Vec<Json>),
    Object(Vec<(String, Json)>),
}

/// What a JSON value stands for.
pub enum JsonView {
    Null,
    Bool(bool),
    Number(int),
    Text(Seq<char>),
    List(Seq<JsonView>),
    Object(Seq<(Seq<char>, JsonView)>),
}

impl Json {
    pub open spec fn view(&self) -> JsonView
        decreases self,
    {
        match self {
            Json::Null => JsonView::Null,
            Json::Bool(b) => JsonView::Bool(*b),
            Json::Number(n) => JsonView::Number(*n as int),
            Json::Text(s) => JsonView::Text(s@),
            Json::List(v) => JsonView::List(
                Seq::new(
                    v@.len(),
                    |i: int|
                        if 0 <= i < v@.len() {
                            v@[i].view()
                        } else {
                            JsonView::Null
                        },
                ),
            ),
            Json::Object(v) => JsonView::Object(
                Seq::new(
                    v@.len(),
                    |i: int|
                        if 0 <= i < v@.len() {
                            (v@[i].0@, v@[i].1.view())
                        } else {
                            (Seq::empty(), JsonView::Null)
                        },
                ),
            ),
        }
    }
}

/// The value of a list of texts.
pub open spec fn text_list(items: Seq<Seq<char>>) -> JsonView {
    JsonView::List(items.map_values(|t: Seq<char>| JsonView::Text(t)))
}

/// What a list of JSON values stands for.
pub open spec fn views(items: Seq<Json>) -> Seq<JsonView> {
    items.map_values(|j: Json| j@)
}

/// Makes a JSON list out of values.
pub fn list(items: Vec<Json>) -> (r: Json)
    ensures
        r@ == JsonView::List(views(items@)),
{
    let r = Json::List(items);
    assert(r@->List_0 =~= views(items@));
    r
}

/// Makes a JSON list out of strings.
pub fn list_of_texts(items: Vec<String>) -> (r: Json)
    ensures
        r@ == text_list(texts(items@)),
{
    let mut out: Vec<Json> = Vec::new();
    let mut i: usize = 0;
    while i < items.len()
        invariant
            i <= items@.len(),
            out@.len() == i,
            forall|j: int| 0 <= j < i ==> (#[trigger] out@[j])@ == JsonView::Text(items@[j]@),
        decreases items@.len() - i,
    {
        out.push(Json::Text(items[i].clone()));
        i = i + 1;
    }
    assert(JsonView::List(views(out@)) == text_list(texts(items@))) by {
        assert(views(out@) =~= texts(items@).map_values(|t: Seq<char>| JsonView::Text(t)));
    }
    list(out)
}

/// A JSON object in the making: its members in order.
pub struct Fields {
    entries: Vec<(String, Json)>,
}

impl Fields {
    /// The members so far.
    pub closed spec fn view(&self) -> Seq<(Seq<char>, JsonView)> {
        self.entries@.map_values(|e: (String, Json)| (e.0@, e.1@))
    }

    /// No members.
    pub fn new() -> (r: Self)
        ensures
            r@ == Seq::<(Seq<char>, JsonView)>::empty(),
    {
        let r = Fields { entries: Vec::new() };
        assert(r@ =~= Seq::<(Seq<char>, JsonView)>::empty());
        r
    }

    /// Adds a member at the end.
    pub fn put(&mut self, key: &str, value: Json)
        ensures
            final(self)@ == old(self)@.push((key@, value@)),
    {
        self.entries.push((key.to_owned(), value));
        assert(self@ =~= old(self)@.push((key@, value@)));
    }

    /// Adds a text member at the end.
    pub fn put_text(&mut self, key: &str, value: String)
        ensures
            final(self)@ == old(self)@.push((key@, JsonView::Text(value@))),
    {
        self.put(key, Json::Text(value));
    }

    /// Adds a member that is true or false.
    pub fn put_bool(&mut self, key: &str, value: bool)
        ensures
            final(self)@ == old(self)@.push((key@, JsonView::Bool(value))),
    {
        self.put(key, Json::Bool(value));
    }

    /// Closes the object.
    pub fn object(self) -> (r: Json)
        ensures
            r@ == JsonView::Object(self@),
    {
        let r = Json::Object(self.entries);
        assert(r@->Object_0 =~= self@);
        r
    }
}

/// The object with one member.
pub fn single(key: &str, value: Json) -> (r: Json)
    ensures
        r@ == JsonView::Object(seq![(key@, value@)]),
{
    let mut f = Fields::new();
    f.put(key, value);
    assert(f@ =~= seq![(key@, value@)]);
    f.object()
}

/// What JSON values stand for: themselves, item by item and member by member, in order.
pub proof fn law_json_view(
    b: bool,
    n: i128,
    s: String,
    items: Vec<Json>,
    entries: Vec<(String, Json)>,
)
    ensures
        Json::Null@ == JsonView::Null,
        Json::Bool(b)@ == JsonView::Bool(b),
        Json::Number(n)@ == JsonView::Number(n as int),
        Json::Text(s)@ == JsonView::Text(s@),
        Json::List(items)@ is List,
        Json::List(items)@->List_0.len() == items@.len(),
        forall|i: int|
            0 <= i < items@.len() ==> #[trigger] Json::List(items)@->List_0[i] == items@[i]@,
        Json::Object(entries)@ is Object,
        Json::Object(entries)@->Object_0.len() == entries@.len(),
        forall|i: int|
            0 <= i < entries@.len() ==> #[trigger] Json::Object(entries)@->Object_0[i] == (
                entries@[i].0@,
                entries@[i].1@,
            ),
{
}

/// A list shows each of its items in its place, and none is left out.
pub proof fn law_lists_are_whole(texts: Seq<Seq<char>>, items: Seq<Json>)
    ensures
        text_list(texts) is List,
        text_list(texts)->List_0.len() == texts.len(),
        forall|i: int|
            0 <= i < texts.len() ==> #[trigger] text_list(texts)->List_0[i] == JsonView::Text(
                texts[i],
            ),
        views(items).len() == items.len(),
        forall|i: int| 0 <= i < items.len() ==> #[trigger] views(items)[i] == items[i]@,
{
}

} // verus!
