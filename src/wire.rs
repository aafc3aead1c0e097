use vstd::prelude::*;

verus! {

/// A leaf value of the object handed to the platform.
#[derive(Clone, Debug, PartialEq, Eq)]
pub enum Scalar {
    Text(String),
    Flag(bool),
}

/// What a leaf value is, with strings as character sequences.
pub enum ScalarView {
    Text(Seq<char>),
    Flag(bool),
}

impl View for Scalar {
    type V = ScalarView;

    open spec fn view(&self) -> ScalarView {
        match self {
            Scalar::Text(s) => ScalarView::Text(s@),
            Scalar::Flag(b) => ScalarView::Flag(*b),
        }
    }
}

/// A key of a nested object with its leaf value.
#[derive(Clone, Debug, PartialEq, Eq)]
pub struct Entry {
    pub key: String,
    pub value: Scalar,
}

impl View for Entry {
    type V = (Seq<char>, ScalarView);

    open spec fn view(&self) -> (Seq<char>, ScalarView) {
        (self.key@, self.value@)
    }
}

/// The entries of a nested object, in order.
pub open spec fn entries_view(v: Seq<Entry>) -> Seq<(Seq<char>, ScalarView)> {
    v.map_values(|e: Entry| e@)
}

/// A value at the top level of the object: a leaf or a nested object.
#[derive(Clone, Debug, PartialEq, Eq)]
pub enum WireValue {
    Scalar(Scalar),
    Object(Vec<Entry>),
}

pub enum ValueView {
    Scalar(ScalarView),
    Object(Seq<(Seq<char>, ScalarView)>),
}

impl View for WireValue {
    type V = ValueView;

    open spec fn view(&self) -> ValueView {
        match self {
            WireValue::Scalar(s) => ValueView::Scalar(s@),
            WireValue::Object(v) => ValueView::Object(entries_view(v@)),
        }
    }
}

/// A key of the object with its value.
#[derive(Clone, Debug, PartialEq, Eq)]
pub struct WireField {
    pub key: String,
    pub value: WireValue,
}

impl View for WireField {
    type V = (Seq<char>, ValueView);

    open spec fn view(&self) -> (Seq<char>, ValueView) {
        (self.key@, self.value@)
    }
}

/// The fields of the object, in order.
pub open spec fn fields_view(v: Seq<WireField>) -> Seq<(Seq<char>, ValueView)> {
    v.map_values(|f: WireField| f@)
}

/// An object in the shape the platform reads: keys in its naming, and only
/// the keys that carry a value.
#[derive(Clone, Debug, PartialEq, Eq)]
pub struct WireObject {
    pub fields: Vec<WireField>,
}

impl View for WireObject {
    type V = Seq<(Seq<char>, ValueView)>;

    open spec fn view(&self) -> Seq<(Seq<char>, ValueView)> {
        fields_view(self.fields@)
    }
}

/// The keys of a list of key-value pairs, in order.
pub open spec fn keys_of<V>(pairs: Seq<(Seq<char>, V)>) -> Seq<Seq<char>> {
    pairs.map_values(|p: (Seq<char>, V)| p.0)
}

/// Appends an entry to a nested object.
pub(crate) fn push_entry(v: &mut Vec<Entry>, key: &str, value: Scalar)
    ensures
        entries_view(final(v)@) == entries_view(old(v)@).push((key@, value@)),
{
    let e = Entry { key: key.to_string(), value };
    v.push(e);
    assert(entries_view(final(v)@) =~= entries_view(old(v)@).push((key@, value@)));
}

/// Appends a field to the object.
pub(crate) fn push_field(v: &mut Vec<WireField>, key: &str, value: WireValue)
    ensures
        fields_view(final(v)@) == fields_view(old(v)@).push((key@, value@)),
{
    let f = WireField { key: key.to_string(), value };
    v.push(f);
    assert(fields_view(final(v)@) =~= fields_view(old(v)@).push((key@, value@)));
}

impl WireObject {
    /// The value under `key`, if the object has that key.
    pub fn get(&self, key: &str) -> (r: Option<&WireValue>)
        ensures
            r is None <==> !keys_of(self@).contains(key@),
            r matches Some(v) ==> exists|i: int|
                0 <= i < self@.len() && #[trigger] self@[i] == (key@, v@),
    {
        let mut i: usize = 0;
        while i < self.fields.len()
            invariant
                i <= self.fields@.len(),
                forall|j: int| 0 <= j < i ==> self.fields@[j].key@ != key@,
            decreases self.fields@.len() - i,
        {
            if crate::text::str_eq(self.fields[i].key.as_str(), key) {
                assert(self@[i as int] == (key@, self.fields@[i as int].value@));
                assert(keys_of(self@)[i as int] == key@);
                return Some(&self.fields[i].value);
            }
            i = i + 1;
        }
        assert(!keys_of(self@).contains(key@)) by {
            if keys_of(self@).contains(key@) {
                let j = choose|j: int| 0 <= j < keys_of(self@).len() && keys_of(self@)[j] == key@;
                assert(self.fields@[j].key@ == key@);
            }
        }
        None
    }
}

} // verus!
