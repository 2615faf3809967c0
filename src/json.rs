use vstd::prelude::*;
use crate::model::{FileView, MetadataView, MethodMetadata, ParseResult, results_view, strings_view};

verus! {

#[verifier::external_type_specification]
#[verifier::external_body]
pub struct ExJsonError(serde_json::Error);

pub open spec fn hex_digit(n: u32) -> char {
    "0123456789abcdef"@[n as int]
}

/// How one character is written inside a JSON string literal: quote and
/// backslash escaped, the usual short escapes, other control characters
/// below U+0020 as `\u00XX`, everything else as it is.
pub open spec fn escape_char(c: char) -> Seq<char> {
    if c == '"' {
        seq!['\\', '"']
    } else if c == '\\' {
        seq!['\\', '\\']
    } else if c == '\u{8}' {
        seq!['\\', 'b']
    } else if c == '\t' {
        seq!['\\', 't']
    } else if c == '\n' {
        seq!['\\', 'n']
    } else if c == '\u{c}' {
        seq!['\\', 'f']
    } else if c == '\r' {
        seq!['\\', 'r']
    } else if (c as u32) < 0x20 {
        seq!['\\', 'u', '0', '0', hex_digit((c as u32) / 16), hex_digit((c as u32) % 16)]
    } else {
        seq![c]
    }
}

pub open spec fn escaped(s: Seq<char>) -> Seq<char>
    decreases s.len(),
{
    if s.len() == 0 {
        Seq::empty()
    } else {
        escaped(s.drop_last()) + escape_char(s.last())
    }
}

/// The JSON string literal for the text `s`.
pub open spec fn json_quoted(s: Seq<char>) -> Seq<char> {
    seq!['"'] + escaped(s) + seq!['"']
}

/// Relies on `serde_json::to_string` applied to a string: it writes into a
/// `Vec` and cannot fail, and gives the quoted literal with the escapes of
/// its `ESCAPE` table.
#[verifier::external_body]
fn quote(s: &String) -> (r: Result<String, serde_json::Error>)
    ensures
        r is Ok,
        r matches Ok(q) ==> q@ == json_quoted(s@),
{
    serde_json::to_string(s)
}

fn quoted(s: &String) -> (r: String)
    ensures
        r@ == json_quoted(s@),
{
    match quote(s) {
        Ok(q) => q,
        Err(_) => String::new(),
    }
}

/// Entries separated by commas, one per line.
pub open spec fn joined(entries: Seq<Seq<char>>) -> Seq<char>
    decreases entries.len(),
{
    if entries.len() == 0 {
        Seq::empty()
    } else if entries.len() == 1 {
        entries[0]
    } else {
        joined(entries.drop_last()) + ",\n"@ + entries.last()
    }
}

/// A JSON array of already indented entries, closed at `indent`.
pub open spec fn json_list(entries: Seq<Seq<char>>, indent: Seq<char>) -> Seq<char> {
    if entries.len() == 0 {
        "[]"@
    } else {
        "[\n"@ + joined(entries) + "\n"@ + indent + "]"@
    }
}

pub open spec fn comment_json(comment: Option<Seq<Seq<char>>>) -> Seq<char> {
    match comment {
        Some(lines) => json_list(
            lines.map_values(|l: Seq<char>| "          "@ + json_quoted(l)),
            "        "@,
        ),
        None => "null"@,
    }
}

pub open spec fn method_json(m: MetadataView) -> Seq<char> {
    "      {\n        \"method_type\": "@ + json_quoted(m.method) + ",\n        \"comment\": "@
        + comment_json(m.comment) + "\n      }"@
}

pub open spec fn file_json(f: FileView) -> Seq<char> {
    "  {\n    \"path\": "@ + json_quoted(f.path) + ",\n    \"method_metadata\": "@ + json_list(
        f.methods.map_values(|m: MetadataView| method_json(m)),
        "    "@,
    ) + "\n  }"@
}

/// The JSON document of a result set: an array of file objects, each with
/// its path and its handlers, in order, pretty-printed.
pub open spec fn json_document(fs: Seq<FileView>) -> Seq<char> {
    json_list(fs.map_values(|f: FileView| file_json(f)), ""@)
}

fn render_list(entries: &Vec<String>, indent: &str) -> (r: String)
    ensures
        r@ == json_list(strings_view(entries@), indent@),
{
    if entries.len() == 0 {
        return String::from_str("[]");
    }
    let mut out = String::from_str("[\n");
    out.append(entries[0].as_str());
    let mut i: usize = 1;
    while i < entries.len()
        invariant
            1 <= i <= entries@.len(),
            out@ == "[\n"@ + joined(strings_view(entries@).subrange(0, i as int)),
        decreases entries@.len() - i,
    {
        assert(strings_view(entries@).subrange(0, i + 1).drop_last() =~= strings_view(
            entries@,
        ).subrange(0, i as int));
        out.append(",\n");
        out.append(entries[i].as_str());
        assert(out@ =~= "[\n"@ + joined(strings_view(entries@).subrange(0, i + 1)));
        i = i + 1;
    }
    assert(strings_view(entries@).subrange(0, entries@.len() as int) =~= strings_view(entries@));
    out.append("\n");
    out.append(indent);
    out.append("]");
    assert(out@ =~= json_list(strings_view(entries@), indent@));
    out
}

fn comment_to_json(comment: &Option<Vec<String>>) -> (r: String)
    ensures
        r@ == comment_json(crate::model::lines_view(*comment)),
{
    match comment {
        None => String::from_str("null"),
        Some(lines) => {
            let mut entries: Vec<String> = Vec::new();
            let mut i: usize = 0;
            while i < lines.len()
                invariant
                    i <= lines@.len(),
                    strings_view(entries@) =~= strings_view(lines@).subrange(0, i as int).map_values(
                        |l: Seq<char>| "          "@ + json_quoted(l),
                    ),
                decreases lines@.len() - i,
            {
                let q = quoted(&lines[i]);
                let mut entry = String::from_str("          ");
                entry.append(q.as_str());
                let ghost prev = entries@;
                entries.push(entry);
                assert(strings_view(entries@) =~= strings_view(prev).push(entry@));
                assert(strings_view(lines@).subrange(0, i + 1) =~= strings_view(lines@).subrange(
                    0,
                    i as int,
                ).push(lines@[i as int]@));
                i = i + 1;
            }
            assert(strings_view(lines@).subrange(0, lines@.len() as int) =~= strings_view(lines@));
            render_list(&entries, "        ")
        },
    }
}

fn method_to_json(m: &MethodMetadata) -> (r: String)
    ensures
        r@ == method_json(m@),
{
    let q = quoted(&m.method_type);
    let c = comment_to_json(&m.comment);
    let mut out = String::from_str("      {\n        \"method_type\": ");
    out.append(q.as_str());
    out.append(",\n        \"comment\": ");
    out.append(c.as_str());
    out.append("\n      }");
    out
}

fn file_to_json(f: &ParseResult) -> (r: String)
    ensures
        r@ == file_json(f@),
{
    let q = quoted(&f.path);
    let mut entries: Vec<String> = Vec::new();
    let mut i: usize = 0;
    while i < f.method_metadata.len()
        invariant
            i <= f.method_metadata@.len(),
            strings_view(entries@) =~= f@.methods.subrange(0, i as int).map_values(
                |m: MetadataView| method_json(m),
            ),
        decreases f.method_metadata@.len() - i,
    {
        let e = method_to_json(&f.method_metadata[i]);
        let ghost prev = entries@;
        entries.push(e);
        assert(strings_view(entries@) =~= strings_view(prev).push(e@));
        assert(f@.methods.subrange(0, i + 1) =~= f@.methods.subrange(0, i as int).push(
            f.method_metadata@[i as int]@,
        ));
        i = i + 1;
    }
    assert(f@.methods.subrange(0, f@.methods.len() as int) =~= f@.methods);
    let list = render_list(&entries, "    ");
    let mut out = String::from_str("  {\n    \"path\": ");
    out.append(q.as_str());
    out.append(",\n    \"method_metadata\": ");
    out.append(list.as_str());
    out.append("\n  }");
    out
}

/// Renders `results` as a JSON document.
pub fn json_text(results: &Vec<ParseResult>) -> (r: String)
    ensures
        r@ == json_document(results_view(results@)),
{
    let mut entries: Vec<String> = Vec::new();
    let mut i: usize = 0;
    while i < results.len()
        invariant
            i <= results@.len(),
            strings_view(entries@) =~= results_view(results@).subrange(0, i as int).map_values(
                |f: FileView| file_json(f),
            ),
        decreases results@.len() - i,
    {
        let e = file_to_json(&results[i]);
        let ghost prev = entries@;
        entries.push(e);
        assert(strings_view(entries@) =~= strings_view(prev).push(e@));
        assert(results_view(results@).subrange(0, i + 1) =~= results_view(results@).subrange(
            0,
            i as int,
        ).push(results@[i as int]@));
        i = i + 1;
    }
    assert(results_view(results@).subrange(0, results@.len() as int) =~= results_view(results@));
    render_list(&entries, "")
}

} // verus!
