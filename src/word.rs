//! One vocabulary record and its JSON text.

use vstd::prelude::*;
use vstd::string::*;

use crate::json::{json_string, json_string_of};

verus! {

/// One record of the list: a term and what it means.
pub struct WordEntry {
    pub term: String,
    pub definition: String,
}

impl View for WordEntry {
    type V = (Seq<char>, Seq<char>);

    open spec fn view(&self) -> (Seq<char>, Seq<char>) {
        (self.term@, self.definition@)
    }
}

/// The records of a list, as pairs of term and definition.
pub open spec fn entries_view(ws: Seq<WordEntry>) -> Seq<(Seq<char>, Seq<char>)> {
    ws.map_values(|w: WordEntry| w@)
}

/// The JSON object written for one record: its two fields, `term` first.
pub open spec fn entry_text(w: (Seq<char>, Seq<char>)) -> Seq<char> {
    "{\"term\":"@ + json_string_of(w.0) + ",\"definition\":"@ + json_string_of(w.1) + "}"@
}

impl WordEntry {
    /// A record of the given term and definition.
    pub fn new(term: String, definition: String) -> (r: WordEntry)
        ensures
            r.term@ == term@,
            r.definition@ == definition@,
    {
        WordEntry { term, definition }
    }

    /// The record as one JSON object.
    pub fn to_json(&self) -> (r: String)
        ensures
            r@ == entry_text(self@),
    {
        let mut out = String::from_str("{\"term\":");
        match json_string(self.term.as_str()) {
            Ok(t) => out.append(t.as_str()),
            Err(_) => {},
        }
        out.append(",\"definition\":");
        match json_string(self.definition.as_str()) {
            Ok(t) => out.append(t.as_str()),
            Err(_) => {},
        }
        out.append("}");
        out
    }
}

} // verus!
