use vstd::prelude::*;
use vstd::string::StringSliceAdditionalSpecFns;
use crate::comments::{adjacent_comments, adjacent_texts, associate_comment, metadata_list, metadata_of, trim_spec};
use crate::extract::{extract_handlers, handlers_of, specifier_handlers};
use crate::model::{
    HandlerView, HttpMethod, MethodMetadata, ParseResult, SpecifierShape, TopLevelItem, handlers_view, lines_view,
    metadata_view,
};
use crate::syntax::{CommentSpan, ParsedModule, SOURCE_START, comments_of, parses};

verus! {

/// Why a file's handlers could not be extracted.
#[derive(Debug)]
pub enum ParseError {
    /// The source is not a well-formed TypeScript module.
    Syntax,
}

pub open spec fn leading_view(leading: Seq<Option<Vec<String>>>) -> Seq<Option<Seq<Seq<char>>>> {
    leading.map_values(|l: Option<Vec<String>>| lines_view(l))
}

/// For each handler, the comments adjacent to its declaration in a module
/// whose text has the bytes `bytes` and whose comment index is `index`;
/// none for a handler without a position.
pub open spec fn found_comments(
    bytes: Seq<u8>,
    index: Map<u32, Seq<CommentSpan>>,
    hs: Seq<HandlerView>,
) -> Seq<Option<Seq<Seq<char>>>> {
    Seq::new(
        hs.len(),
        |i: int|
            match hs[i].pos {
                Some(p) => if index.contains_key(p) {
                    Some(adjacent_texts(bytes, SOURCE_START, index[p], p))
                } else {
                    None
                },
                None => None,
            },
    )
}

/// The result for the file at `path`, given its handlers and, for each one,
/// the comments found before its declaration.
pub fn file_result(
    path: &String,
    handlers: &Vec<HttpMethod>,
    leading: &Vec<Option<Vec<String>>>,
) -> (r: ParseResult)
    requires
        handlers@.len() == leading@.len(),
    ensures
        r.path@ == path@,
        metadata_view(r.method_metadata@) == metadata_list(
            handlers_view(handlers@),
            leading_view(leading@),
        ),
{
    let mut out: Vec<MethodMetadata> = Vec::new();
    let mut i: usize = 0;
    while i < handlers.len()
        invariant
            i <= handlers@.len(),
            handlers@.len() == leading@.len(),
            metadata_view(out@) =~= metadata_list(
                handlers_view(handlers@),
                leading_view(leading@),
            ).subrange(0, i as int),
        decreases handlers@.len() - i,
    {
        let m = associate_comment(&handlers[i], &leading[i]);
        let ghost prev = out@;
        out.push(m);
        assert(metadata_view(out@) =~= metadata_view(prev).push(m@));
        i = i + 1;
    }
    ParseResult { path: path.clone(), method_metadata: out }
}

/// Extracts the handlers of the module `source`, read from `path`.
/// Fails exactly when the source does not parse (or is too large to lay out
/// in `u32` byte positions). Otherwise the path is kept, and the result lists
/// the handlers of a sequence of top-level items (the one `top_level_items`
/// reads from the parser's tree, which this contract does not name), each
/// with the comments of the source's comment index adjacent to its declaration.
pub fn parse(path: &String, source: &str) -> (r: Result<ParseResult, ParseError>)
    ensures
        r is Ok <==> (parses(source@) && SOURCE_START + source.spec_bytes().len() <= u32::MAX),
        r matches Ok(res) ==> res.path@ == path@ && exists|items: Seq<TopLevelItem>|
            metadata_view(res.method_metadata@) == metadata_list(
                handlers_of(items),
                found_comments(
                    source.spec_bytes(),
                    comments_of(source@, SOURCE_START),
                    handlers_of(items),
                ),
            ),
{
    let parsed = match ParsedModule::from_source(source) {
        Some(p) => p,
        None => return Err(ParseError::Syntax),
    };
    let bytes = source.as_bytes();
    let ghost index = comments_of(source@, SOURCE_START);
    let items = parsed.top_level_items();
    let handlers = extract_handlers(&items);
    let mut leading: Vec<Option<Vec<String>>> = Vec::new();
    let mut i: usize = 0;
    while i < handlers.len()
        invariant
            i <= handlers@.len(),
            parsed.comment_index() == index,
            bytes@ == source.spec_bytes(),
            leading_view(leading@) =~= found_comments(
                bytes@,
                index,
                handlers_view(handlers@),
            ).subrange(0, i as int),
        decreases handlers@.len() - i,
    {
        let found = match handlers[i].pos {
            Some(p) => match parsed.leading_comments(p) {
                Some(spans) => Some(adjacent_comments(bytes, SOURCE_START, &spans, p)),
                None => None,
            },
            None => None,
        };
        let ghost prev = leading@;
        leading.push(found);
        assert(leading_view(leading@) =~= leading_view(prev).push(lines_view(found)));
        i = i + 1;
    }
    let res = file_result(path, &handlers, &leading);
    assert(leading_view(leading@) =~= found_comments(bytes@, index, handlers_of(items@)));
    Ok(res)
}

/// A module without handler exports yields an empty handler list, whatever
/// comments it holds.
pub proof fn lemma_no_exports_no_metadata(
    items: Seq<TopLevelItem>,
    raws: Seq<Option<Seq<Seq<char>>>>,
)
    requires
        forall|i: int| 0 <= i < items.len() ==> (#[trigger] items[i]) is Other,
    ensures
        handlers_of(items).len() == 0,
        metadata_list(handlers_of(items), raws).len() == 0,
    decreases items.len(),
{
    if items.len() > 0 {
        lemma_no_exports_no_metadata(items.drop_last(), raws);
        assert(items.last() is Other);
    }
}

/// Names re-exported by an `export { ... }` clause never receive a comment,
/// whatever comments stand before the clause.
pub proof fn lemma_specifiers_never_commented(
    specs: Seq<SpecifierShape>,
    raws: Seq<Option<Seq<Seq<char>>>>,
)
    ensures
        forall|i: int|
            0 <= i < specifier_handlers(specs).len() ==> (#[trigger] metadata_list(
                specifier_handlers(specs),
                raws,
            )[i]).comment is None,
{
    assert forall|i: int| 0 <= i < specifier_handlers(specs).len() implies (
    #[trigger] specifier_handlers(specs)[i]).pos is None by {
        lemma_specifier_handlers_unpositioned(specs, i);
    }
}

proof fn lemma_specifier_handlers_unpositioned(specs: Seq<SpecifierShape>, i: int)
    requires
        0 <= i < specifier_handlers(specs).len(),
    ensures
        specifier_handlers(specs)[i].pos is None,
    decreases specs.len(),
{
    let prefix = specifier_handlers(specs.drop_last());
    if i < prefix.len() {
        lemma_specifier_handlers_unpositioned(specs.drop_last(), i);
    }
}

/// A positioned handler preceded by one comment carries that comment,
/// trimmed, as its only line.
pub proof fn lemma_single_comment_trimmed(h: HandlerView, text: Seq<char>)
    requires
        h.pos is Some,
    ensures
        metadata_of(h, Some(seq![text])).comment == Some(seq![trim_spec(text)]),
        metadata_of(h, Some(seq![text])).method == h.method,
{
    assert(seq![text].map_values(|l: Seq<char>| trim_spec(l)) =~= seq![trim_spec(text)]);
}

} // verus!
