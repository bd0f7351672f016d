use vstd::prelude::*;
use vstd::string::StringExecFns;
use crate::listing::{EntryRecord, filenames};

verus! {

/// The JSON string literal that serde_json writes for a text: the text between
/// double quotes, with quotes, backslashes and control characters escaped.
pub uninterp spec fn json_string_of(s: Seq<char>) -> Seq<char>;

/// Relies on serde_json's `Display` for `Value::String`, which writes the
/// escaped literal for the text and depends on the text alone.
#[verifier::external_body]
fn json_quote(s: &str) -> (r: String)
    ensures
        r@ == json_string_of(s@),
{
    serde_json::Value::String(s.to_string()).to_string()
}

/// `items` with `sep` between each two of them.
pub open spec fn joined(items: Seq<Seq<char>>, sep: Seq<char>) -> Seq<char>
    decreases items.len(),
{
    if items.len() == 0 {
        Seq::empty()
    } else if items.len() == 1 {
        items[0]
    } else {
        joined(items.drop_last(), sep) + sep + items.last()
    }
}

/// One record as compact JSON: `{"filename":<name>}`.
pub open spec fn compact_record(name: Seq<char>) -> Seq<char> {
    "{\"filename\":"@ + json_string_of(name) + "}"@
}

/// One record as pretty JSON, indented as an element of the array.
pub open spec fn pretty_record(name: Seq<char>) -> Seq<char> {
    "  {\n    \"filename\": "@ + json_string_of(name) + "\n  }"@
}

/// A record in the chosen layout.
pub open spec fn record_text(name: Seq<char>, pretty: bool) -> Seq<char> {
    if pretty {
        pretty_record(name)
    } else {
        compact_record(name)
    }
}

/// The JSON array of the records for `names`: on one line, or with one key
/// per line and two spaces of indent per level. An empty array is `[]` in
/// either layout.
pub open spec fn listing_text(names: Seq<Seq<char>>, pretty: bool) -> Seq<char> {
    let items = names.map_values(|n: Seq<char>| record_text(n, pretty));
    if names.len() == 0 {
        "[]"@
    } else if pretty {
        "[\n"@ + joined(items, ",\n"@) + "\n]"@
    } else {
        "["@ + joined(items, ","@) + "]"@
    }
}

/// The listing as JSON text, compact or pretty.
pub fn format_listing(records: &Vec<EntryRecord>, pretty: bool) -> (r: String)
    ensures
        r@ == listing_text(filenames(records@), pretty),
{
    let ghost names = filenames(records@);
    let ghost items = names.map_values(|n: Seq<char>| record_text(n, pretty));
    if records.len() == 0 {
        return <String as StringExecFns>::from_str("[]");
    }
    let sep: &str = if pretty { ",\n" } else { "," };
    let mut body = String::new();
    let mut i: usize = 0;
    while i < records.len()
        invariant
            0 <= i <= records.len(),
            names == filenames(records@),
            items == names.map_values(|n: Seq<char>| record_text(n, pretty)),
            sep@ == (if pretty { ",\n"@ } else { ","@ }),
            body@ == joined(items.take(i as int), sep@),
        decreases records.len() - i,
    {
        if i > 0 {
            body.append(sep);
        }
        let quoted = json_quote(records[i].filename.as_str());
        if pretty {
            body.append("  {\n    \"filename\": ");
            body.append(quoted.as_str());
            body.append("\n  }");
        } else {
            body.append("{\"filename\":");
            body.append(quoted.as_str());
            body.append("}");
        }
        assert(items.take(i + 1).drop_last() =~= items.take(i as int));
        assert(items[i as int] == record_text(records@[i as int].filename@, pretty));
        i += 1;
    }
    assert(items.take(i as int) =~= items);
    let mut out = if pretty {
        <String as StringExecFns>::from_str("[\n")
    } else {
        <String as StringExecFns>::from_str("[")
    };
    out.append(body.as_str());
    if pretty {
        out.append("\n]");
    } else {
        out.append("]");
    }
    out
}

} // verus!
