//! Reading the word list from the text of its data file.

use vstd::prelude::*;

use crate::json::{
    array_items, document_of, error_text, is_object, member, parse_json, text_of, tree_of,
    JsonTree,
};
use crate::word::{entries_view, WordEntry};

verus! {

/// The two fields of a record.
#[derive(Clone, Copy, Debug, PartialEq, Eq, Structural)]
pub enum Field {
    Term,
    Definition,
}

/// Why the text of the data file does not describe a word list.
#[derive(Debug)]
pub enum FormatError {
    /// The text is not JSON; the parser's message.
    Syntax(String),
    /// The document is not an array.
    NotAList,
    /// The element at this index is not an object.
    NotAnObject(usize),
    /// The element at this index lacks this field.
    MissingField(usize, Field),
    /// The element at this index has this field, but not as a string.
    NotText(usize, Field),
}

/// Why the word list could not be loaded at startup.
#[derive(Debug)]
pub enum LoadError {
    /// The data file could not be read; the reason given by the system.
    ConfigLoad(String),
    /// The data file was read but does not hold a word list.
    DataFormat(FormatError),
}

/// The member name under which a field is stored.
pub open spec fn field_key(f: Field) -> Seq<char> {
    match f {
        Field::Term => "term"@,
        Field::Definition => "definition"@,
    }
}

/// The text of field `f` of the object at index `i`, or why there is none.
pub open spec fn field_of(i: usize, f: Field, m: Map<Seq<char>, JsonTree>) -> Result<
    Seq<char>,
    FormatError,
> {
    if !m.contains_key(field_key(f)) {
        Err(FormatError::MissingField(i, f))
    } else {
        match m[field_key(f)] {
            JsonTree::Str(s) => Ok(s),
            _ => Err(FormatError::NotText(i, f)),
        }
    }
}

/// The record that the element at index `i` describes, or the first fault
/// in it (the term is looked at before the definition).
pub open spec fn entry_of(i: usize, t: JsonTree) -> Result<(Seq<char>, Seq<char>), FormatError> {
    match t {
        JsonTree::Object(m) => match field_of(i, Field::Term, m) {
            Err(x) => Err(x),
            Ok(term) => match field_of(i, Field::Definition, m) {
                Err(x) => Err(x),
                Ok(definition) => Ok((term, definition)),
            },
        },
        _ => Err(FormatError::NotAnObject(i)),
    }
}

/// The records that the elements describe, in order, or the fault of the
/// first element that describes none.
pub open spec fn entries_of(items: Seq<JsonTree>) -> Result<
    Seq<(Seq<char>, Seq<char>)>,
    FormatError,
>
    decreases items.len(),
{
    if items.len() == 0 {
        Ok(Seq::empty())
    } else {
        match entries_of(items.drop_last()) {
            Err(x) => Err(x),
            Ok(p) => match entry_of((items.len() - 1) as usize, items.last()) {
                Err(x) => Err(x),
                Ok(w) => Ok(p.push(w)),
            },
        }
    }
}

/// The word list that a JSON document describes: it must be an array of
/// records.
pub open spec fn words_of(d: JsonTree) -> Result<Seq<(Seq<char>, Seq<char>)>, FormatError> {
    match d {
        JsonTree::Array(items) => entries_of(items),
        _ => Err(FormatError::NotAList),
    }
}

/// What the values hold.
pub open spec fn trees(vs: Seq<serde_json::Value>) -> Seq<JsonTree> {
    vs.map_values(|v: serde_json::Value| tree_of(v))
}

/// `r` is the outcome `words` that the spec functions give, with records
/// compared by their views.
pub open spec fn outcome_is(
    r: Result<Vec<WordEntry>, FormatError>,
    words: Result<Seq<(Seq<char>, Seq<char>)>, FormatError>,
) -> bool {
    match words {
        Ok(ws) => r matches Ok(v) && entries_view(v@) == ws,
        Err(e) => r == Err::<Vec<WordEntry>, FormatError>(e),
    }
}

/// What reading a text as a word list gives: a syntax error where it is
/// not JSON, else the word list that its document describes.
pub open spec fn parsed_as(text: Seq<char>, r: Result<Vec<WordEntry>, FormatError>) -> bool {
    match document_of(text) {
        None => r matches Err(FormatError::Syntax(_)),
        Some(d) => outcome_is(r, words_of(d)),
    }
}

/// What loading a data file of this text gives: what reading the text as a
/// word list gives, a fault being a format error.
pub open spec fn loaded_as(text: Seq<char>, r: Result<Vec<WordEntry>, LoadError>) -> bool {
    match document_of(text) {
        None => r matches Err(LoadError::DataFormat(FormatError::Syntax(_))),
        Some(d) => match words_of(d) {
            Ok(ws) => r matches Ok(v) && entries_view(v@) == ws,
            Err(e) => r == Err::<Vec<WordEntry>, LoadError>(LoadError::DataFormat(e)),
        },
    }
}

/// A fault in a prefix of the elements is the fault of the whole sequence.
pub proof fn lemma_fault_kept(items: Seq<JsonTree>, j: int)
    requires
        0 <= j <= items.len(),
        entries_of(items.take(j)) is Err,
    ensures
        entries_of(items) == entries_of(items.take(j)),
    decreases items.len() - j,
{
    if j < items.len() {
        assert(items.take(j + 1).drop_last() =~= items.take(j));
        lemma_fault_kept(items, j + 1);
    } else {
        assert(items.take(j) =~= items);
    }
}

/// A data file whose array holds an object without a `definition` member
/// does not load: startup stops with a format error.
pub proof fn lemma_missing_definition_fails(text: Seq<char>, items: Seq<JsonTree>, i: int)
    requires
        document_of(text) == Some(JsonTree::Array(items)),
        0 <= i < items.len(),
        items[i] matches JsonTree::Object(m) && !m.contains_key("definition"@),
    ensures
        forall|r: Result<Vec<WordEntry>, LoadError>| #[trigger]
            loaded_as(text, r) ==> r matches Err(LoadError::DataFormat(_)),
{
    if entries_of(items.take(i)) is Err {
        lemma_fault_kept(items, i);
    } else {
        assert(items.take(i + 1).drop_last() =~= items.take(i));
        assert(items.take(i + 1).last() == items[i]);
        lemma_fault_kept(items, i + 1);
    }
}

/// The text of field `f` of the object `v`, the element at index `i`.
fn field_text(i: usize, f: Field, v: &serde_json::Value) -> (r: Result<String, FormatError>)
    requires
        tree_of(*v) is Object,
    ensures
        match field_of(i, f, tree_of(*v)->Object_0) {
            Ok(s) => r matches Ok(t) && t@ == s,
            Err(x) => r == Err::<String, FormatError>(x),
        },
{
    let key = match f {
        Field::Term => "term",
        Field::Definition => "definition",
    };
    match member(v, key) {
        None => Err(FormatError::MissingField(i, f)),
        Some(m) => match text_of(m) {
            None => Err(FormatError::NotText(i, f)),
            Some(t) => Ok(t),
        },
    }
}

/// The record that the element `v` at index `i` describes.
pub fn entry_from_value(i: usize, v: &serde_json::Value) -> (r: Result<WordEntry, FormatError>)
    ensures
        match entry_of(i, tree_of(*v)) {
            Ok(w) => r matches Ok(e) && e@ == w,
            Err(x) => r == Err::<WordEntry, FormatError>(x),
        },
{
    if !is_object(v) {
        return Err(FormatError::NotAnObject(i));
    }
    let term = field_text(i, Field::Term, v)?;
    let definition = field_text(i, Field::Definition, v)?;
    Ok(WordEntry { term, definition })
}

/// The records that the elements describe, in order; the fault of the first
/// element that describes none.
pub fn words_from_values(items: &Vec<serde_json::Value>) -> (r: Result<Vec<WordEntry>, FormatError>)
    ensures
        outcome_is(r, entries_of(trees(items@))),
{
    let ghost ts = trees(items@);
    let mut ws: Vec<WordEntry> = Vec::new();
    let mut i: usize = 0;
    assert(ts.take(0) =~= Seq::<JsonTree>::empty());
    assert(entries_view(ws@) =~= Seq::empty());
    while i < items.len()
        invariant
            i <= items.len(),
            ts == trees(items@),
            entries_of(ts.take(i as int)) == Ok::<Seq<(Seq<char>, Seq<char>)>, FormatError>(
                entries_view(ws@),
            ),
        decreases items.len() - i,
    {
        let w = entry_from_value(i, &items[i]);
        proof {
            assert(ts.take(i + 1).drop_last() =~= ts.take(i as int));
            assert(ts.take(i + 1).last() == tree_of(items@[i as int]));
        }
        match w {
            Ok(w) => {
                let ghost prev = ws@;
                ws.push(w);
                assert(entries_view(ws@) =~= entries_view(prev).push(ws@.last()@));
            },
            Err(x) => {
                proof {
                    lemma_fault_kept(ts, i + 1);
                }
                return Err(x);
            },
        }
        i += 1;
    }
    assert(ts.take(items.len() as int) =~= ts);
    Ok(ws)
}

/// The word list that the text of the data file describes: a JSON array of
/// objects, each with a string `term` and a string `definition`, kept in
/// the order of the array. Members other than these two are ignored.
pub fn parse_words(text: &str) -> (r: Result<Vec<WordEntry>, FormatError>)
    ensures
        parsed_as(text@, r),
{
    let doc = match parse_json(text) {
        Ok(doc) => doc,
        Err(e) => return Err(FormatError::Syntax(error_text(&e))),
    };
    match array_items(doc) {
        Some(items) => words_from_values(&items),
        None => Err(FormatError::NotAList),
    }
}

/// The startup load: the outcome of reading the data file (its text, or the
/// reason it could not be read) turned into the word list or the error that
/// stops startup. A read failure is a load error carrying its reason; a
/// file that was read gives what `parse_words` gives, a fault in it being a
/// format error.
pub fn load_words(read: Result<String, String>) -> (r: Result<Vec<WordEntry>, LoadError>)
    ensures
        match read {
            Err(m) => r matches Err(LoadError::ConfigLoad(c)) && c@ == m@,
            Ok(t) => loaded_as(t@, r),
        },
{
    match read {
        Err(m) => Err(LoadError::ConfigLoad(m)),
        Ok(text) => {
            match parse_words(text.as_str()) {
                Ok(ws) => Ok(ws),
                Err(x) => Err(LoadError::DataFormat(x)),
            }
        },
    }
}

} // verus!
