//! The part of a JSON document that the weather feed is read from: an
//! object of objects of texts.

use vstd::prelude::*;
use serde_json::Value;

verus! {

/// A member of an entry.
#[derive(Debug, Clone, PartialEq, Eq)]
pub enum Field {
    /// A JSON string.
    Text(String),
    /// Any other JSON value.
    Other,
}

/// What a [`Field`] is.
pub ghost enum FieldView {
    Text(Seq<char>),
    Other,
}

impl DeepView for Field {
    type V = FieldView;

    open spec fn deep_view(&self) -> FieldView {
        match *self {
            Field::Text(text) => FieldView::Text(text@),
            Field::Other => FieldView::Other,
        }
    }
}

/// A value under a key of the document.
#[derive(Debug, Clone, PartialEq, Eq)]
pub enum Entry {
    /// A JSON object: its keys with their values, in the order in which the
    /// reader hands them out.
    Object(Vec<(String, Field)>),
    /// Any other JSON value.
    Other,
}

/// What an [`Entry`] is.
pub ghost enum EntryView {
    Object(Seq<(Seq<char>, FieldView)>),
    Other,
}

impl DeepView for Entry {
    type V = EntryView;

    open spec fn deep_view(&self) -> EntryView {
        match *self {
            Entry::Object(fields) => EntryView::Object(fields.deep_view()),
            Entry::Other => EntryView::Other,
        }
    }
}

/// A JSON document.
#[derive(Debug, Clone, PartialEq, Eq)]
pub enum Document {
    /// A JSON object: its keys with their values, in the order in which the
    /// reader hands them out.
    Object(Vec<(String, Entry)>),
    /// Any other JSON value.
    Other,
}

/// What a [`Document`] is.
pub ghost enum DocumentView {
    Object(Seq<(Seq<char>, EntryView)>),
    Other,
}

impl DeepView for Document {
    type V = DocumentView;

    open spec fn deep_view(&self) -> DocumentView {
        match *self {
            Document::Object(entries) => DocumentView::Object(entries.deep_view()),
            Document::Other => DocumentView::Other,
        }
    }
}

/// What [`read_document`] answers where `expected` is owed.
pub open spec fn reads(r: Option<Document>, expected: Option<DocumentView>) -> bool {
    match r {
        Some(document) => expected == Some(document.deep_view()),
        None => expected is None,
    }
}

/// The document that `serde_json::from_str` reads from a text as a
/// `serde_json::Value`, two levels deep; `None` where it reads none.
pub uninterp spec fn json_document(text: Seq<char>) -> Option<DocumentView>;

/// Calls `serde_json::from_str` for a `serde_json::Value` and copies the two
/// upper levels of the value, variant by variant. The contract only names
/// the outcome, which depends on the text alone.
#[verifier::external_body]
pub(crate) fn read_document(text: &str) -> (r: Option<Document>)
    ensures
        reads(r, json_document(text@)),
{
    let value: Value = serde_json::from_str(text).ok()?;
    let field = |(key, value): (String, Value)| match value {
        Value::String(text) => (key, Field::Text(text)),
        _ => (key, Field::Other),
    };
    let entry = |(key, value): (String, Value)| match value {
        Value::Object(members) => (key, Entry::Object(members.into_iter().map(field).collect())),
        _ => (key, Entry::Other),
    };
    Some(match value {
        Value::Object(entries) => Document::Object(entries.into_iter().map(entry).collect()),
        _ => Document::Other,
    })
}

/// The first member under `key`, if there is one.
pub open spec fn spec_member(fields: Seq<(Seq<char>, FieldView)>, key: Seq<char>) -> Option<
    FieldView,
>
    decreases fields.len(),
{
    if fields.len() == 0 {
        None
    } else if fields[0].0 == key {
        Some(fields[0].1)
    } else {
        spec_member(fields.drop_first(), key)
    }
}

/// Looks a member up by its key.
pub fn member<'a>(fields: &'a Vec<(String, Field)>, key: &String) -> (r: Option<&'a Field>)
    ensures
        match r {
            Some(field) => spec_member(fields.deep_view(), key@) == Some(field.deep_view()),
            None => spec_member(fields.deep_view(), key@) is None,
        },
{
    let ghost all = fields.deep_view();
    let mut i: usize = 0;
    proof {
        assert(all.skip(0) =~= all);
    }
    while i < fields.len()
        invariant
            i <= fields.len(),
            all == fields.deep_view(),
            spec_member(all, key@) == spec_member(all.skip(i as int), key@),
        decreases fields.len() - i,
    {
        proof {
            assert(all.skip(i as int).drop_first() =~= all.skip(i as int + 1));
            assert(all.skip(i as int)[0] == all[i as int]);
            assert(all[i as int] == fields@[i as int].deep_view());
        }
        if fields[i].0 == *key {
            return Some(&fields[i].1);
        }
        i += 1;
    }
    None
}

} // verus!
