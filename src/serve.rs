//! The word-list route: the whole list as one JSON array.

use vstd::prelude::*;
use vstd::string::*;

use crate::json::JsonTree;
use crate::load::{entries_of, words_of};
use crate::word::{entries_view, entry_text, WordEntry};

verus! {

/// Texts joined with commas between them.
pub open spec fn joined(items: Seq<Seq<char>>) -> Seq<char>
    decreases items.len(),
{
    if items.len() == 0 {
        Seq::empty()
    } else if items.len() == 1 {
        items[0]
    } else {
        joined(items.drop_last()) + ","@ + items.last()
    }
}

/// A JSON array whose elements are the given texts, in order.
pub open spec fn array_text(items: Seq<Seq<char>>) -> Seq<char> {
    "["@ + joined(items) + "]"@
}

/// The JSON text of a whole list: one object per record, in list order.
pub open spec fn list_text(ws: Seq<(Seq<char>, Seq<char>)>) -> Seq<char> {
    array_text(ws.map_values(|w: (Seq<char>, Seq<char>)| entry_text(w)))
}

/// An HTTP answer: status code, content type and body.
pub struct Reply {
    pub status: u16,
    pub content_type: String,
    pub body: String,
}

/// The list as a JSON array, records in list order.
pub fn words_json(ws: &Vec<WordEntry>) -> (r: String)
    ensures
        r@ == list_text(entries_view(ws@)),
{
    let ghost items = entries_view(ws@).map_values(|w: (Seq<char>, Seq<char>)| entry_text(w));
    let mut out = String::from_str("[");
    let mut i: usize = 0;
    while i < ws.len()
        invariant
            i <= ws.len(),
            items.len() == ws@.len(),
            forall|k: int| 0 <= k < ws@.len() ==> #[trigger] items[k] == entry_text(ws@[k]@),
            out@ == "["@ + joined(items.take(i as int)),
        decreases ws.len() - i,
    {
        let t = ws[i].to_json();
        if i > 0 {
            out.append(",");
        }
        out.append(t.as_str());
        proof {
            let next = items.take(i + 1);
            assert(next.drop_last() =~= items.take(i as int));
            if i == 0 {
                assert(joined(next) == items[0]);
            }
        }
        i += 1;
    }
    out.append("]");
    assert(items.take(ws@.len() as int) =~= items);
    out
}

/// The answer to a request for the word list: status 200, JSON content,
/// and the whole list as body.
pub fn get_words(data: &Vec<WordEntry>) -> (r: Reply)
    ensures
        r.status == 200,
        r.content_type@ == "application/json"@,
        r.body@ == list_text(entries_view(data@)),
{
    Reply {
        status: 200,
        content_type: String::from_str("application/json"),
        body: words_json(data),
    }
}

/// An element that holds a record: an object whose `term` and `definition`
/// members are both strings.
pub open spec fn holds_record(t: JsonTree) -> bool {
    &&& t matches JsonTree::Object(m)
    &&& m.contains_key("term"@) && m["term"@] is Str
    &&& m.contains_key("definition"@) && m["definition"@] is Str
}

/// The term and definition of an element that holds a record.
pub open spec fn record_in(t: JsonTree) -> (Seq<char>, Seq<char>) {
    (t->Object_0["term"@]->Str_0, t->Object_0["definition"@]->Str_0)
}

/// A data file whose array holds N records loads without fault and is
/// served whole: the reply body is a JSON array of exactly N elements, the
/// i-th holding the term and definition of the i-th record of the file.
pub proof fn lemma_served_whole(items: Seq<JsonTree>)
    requires
        forall|i: int| 0 <= i < items.len() ==> #[trigger] holds_record(items[i]),
    ensures
        words_of(JsonTree::Array(items)) matches Ok(ws) && ws.len() == items.len() && (forall|
            i: int,
        | 0 <= i < items.len() ==> #[trigger] ws[i] == record_in(items[i])) && list_text(ws)
            == array_text(Seq::new(items.len(), |i: int| entry_text(record_in(items[i])))),
    decreases items.len(),
{
    if items.len() > 0 {
        let prefix = items.drop_last();
        assert forall|i: int| 0 <= i < prefix.len() implies #[trigger] holds_record(prefix[i]) by {
            assert(prefix[i] == items[i]);
        }
        lemma_served_whole(prefix);
        assert(holds_record(items[items.len() - 1]));
    }
    let ws = entries_of(items)->Ok_0;
    assert(ws.map_values(|w: (Seq<char>, Seq<char>)| entry_text(w)) =~= Seq::new(
        items.len(),
        |i: int| entry_text(record_in(items[i])),
    ));
}

} // verus!
