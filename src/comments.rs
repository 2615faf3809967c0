use vstd::prelude::*;
use crate::syntax::{CommentSpan, spans_view};
use crate::model::{HandlerView, HttpMethod, MetadataView, MethodMetadata, lines_view, strings_view};

verus! {

/// Characters with the Unicode `White_Space` property.
pub open spec fn is_white_space(c: char) -> bool {
    ('\u{9}' <= c && c <= '\u{d}') || c == ' ' || c == '\u{85}' || c == '\u{a0}'
        || c == '\u{1680}' || ('\u{2000}' <= c && c <= '\u{200a}') || c == '\u{2028}'
        || c == '\u{2029}' || c == '\u{202f}' || c == '\u{205f}' || c == '\u{3000}'
}

/// `s` without its leading and trailing white space.
pub open spec fn trim_spec(s: Seq<char>) -> Seq<char>
    decreases s.len(),
{
    if s.len() > 0 && is_white_space(s[0]) {
        trim_spec(s.drop_first())
    } else if s.len() > 0 && is_white_space(s.last()) {
        trim_spec(s.drop_last())
    } else {
        s
    }
}

/// Relies on `str::trim`: removes leading and trailing `White_Space` characters.
#[verifier::external_body]
fn trim_text(s: &String) -> (r: String)
    ensures
        r@ == trim_spec(s@),
{
    s.trim().to_string()
}

/// The documentation lines made of the comments found before a declaration:
/// each trimmed, in source order; none when nothing was found.
pub open spec fn comment_lines(raw: Option<Seq<Seq<char>>>) -> Option<Seq<Seq<char>>> {
    match raw {
        Some(lines) => if lines.len() == 0 {
            None
        } else {
            Some(lines.map_values(|l: Seq<char>| trim_spec(l)))
        },
        None => None,
    }
}

/// A handler with its comments; a handler without a position never has one.
pub open spec fn metadata_of(h: HandlerView, raw: Option<Seq<Seq<char>>>) -> MetadataView {
    MetadataView {
        method: h.method,
        comment: if h.pos is Some {
            comment_lines(raw)
        } else {
            None
        },
    }
}

pub open spec fn metadata_list(
    hs: Seq<HandlerView>,
    raws: Seq<Option<Seq<Seq<char>>>>,
) -> Seq<MetadataView> {
    Seq::new(hs.len(), |i: int| metadata_of(hs[i], raws[i]))
}

/// Trims each comment text; `None` when there is none at all.
pub fn comment_lines_of(raw: &Option<Vec<String>>) -> (r: Option<Vec<String>>)
    ensures
        lines_view(r) == comment_lines(lines_view(*raw)),
{
    match raw {
        None => None,
        Some(texts) => {
            if texts.len() == 0 {
                return None;
            }
            let mut out: Vec<String> = Vec::new();
            let mut i: usize = 0;
            while i < texts.len()
                invariant
                    i <= texts@.len(),
                    strings_view(out@) =~= strings_view(texts@).subrange(0, i as int).map_values(
                        |l: Seq<char>| trim_spec(l),
                    ),
                decreases texts@.len() - i,
            {
                let t = trim_text(&texts[i]);
                let ghost prev = out@;
                out.push(t);
                assert(strings_view(out@) =~= strings_view(prev).push(t@));
                assert(strings_view(texts@).subrange(0, i + 1) =~= strings_view(texts@).subrange(
                    0,
                    i as int,
                ).push(texts@[i as int]@));
                i = i + 1;
            }
            assert(strings_view(texts@).subrange(0, texts@.len() as int) =~= strings_view(
                texts@,
            ));
            Some(out)
        },
    }
}

/// Number of line feeds in `b`.
pub open spec fn newlines(b: Seq<u8>) -> nat
    decreases b.len(),
{
    if b.len() == 0 {
        0
    } else {
        newlines(b.drop_last()) + if b.last() == 10u8 {
            1nat
        } else {
            0nat
        }
    }
}

/// Whether the text between byte positions `from` and `to` of `src`, laid
/// out from `start`, separates what stands before it from what follows:
/// it holds a blank line, or the positions do not lie in order inside `src`.
/// Only white space stands between a declaration's leading comments.
pub open spec fn separated(src: Seq<u8>, start: u32, from: u32, to: u32) -> bool {
    !(start <= from <= to && to - start <= src.len()) || newlines(
        src.subrange(from - start, to - start),
    ) >= 2
}

/// Where the run of comments adjacent to position `next` begins: walking back
/// from `next`, a comment belongs to the run while no blank line separates it
/// from what follows it.
pub open spec fn run_start(src: Seq<u8>, start: u32, cs: Seq<CommentSpan>, next: u32) -> int
    decreases cs.len(),
{
    if cs.len() == 0 {
        0
    } else if separated(src, start, cs.last().1, next) {
        cs.len() as int
    } else {
        run_start(src, start, cs.drop_last(), cs.last().0)
    }
}

/// The texts of the comments adjacent to position `next`, in source order.
pub open spec fn adjacent_texts(src: Seq<u8>, start: u32, cs: Seq<CommentSpan>, next: u32) -> Seq<
    Seq<char>,
> {
    cs.subrange(run_start(src, start, cs, next), cs.len() as int).map_values(
        |c: CommentSpan| c.2,
    )
}

proof fn lemma_run_start_bounds(src: Seq<u8>, start: u32, cs: Seq<CommentSpan>, next: u32)
    ensures
        0 <= run_start(src, start, cs, next) <= cs.len(),
    decreases cs.len(),
{
    if cs.len() > 0 && !separated(src, start, cs.last().1, next) {
        lemma_run_start_bounds(src, start, cs.drop_last(), cs.last().0);
    }
}

/// A blank line between the last recorded comment and the declaration
/// detaches every comment from it.
pub proof fn lemma_blank_line_detaches(
    src: Seq<u8>,
    start: u32,
    cs: Seq<CommentSpan>,
    next: u32,
)
    requires
        cs.len() > 0,
        separated(src, start, cs.last().1, next),
    ensures
        adjacent_texts(src, start, cs, next).len() == 0,
{
}

/// Whether a blank line lies between byte positions `from` and `to`.
pub fn has_blank_line(src: &[u8], start: u32, from: u32, to: u32) -> (r: bool)
    ensures
        r == separated(src@, start, from, to),
{
    if !(start <= from && from <= to && ((to - start) as usize) <= src.len()) {
        return true;
    }
    let a = (from - start) as usize;
    let b = (to - start) as usize;
    let mut count: usize = 0;
    let mut i: usize = a;
    while i < b
        invariant
            a <= i <= b <= src@.len(),
            count == newlines(src@.subrange(a as int, i as int)),
            count <= i - a,
        decreases b - i,
    {
        assert(src@.subrange(a as int, i + 1).drop_last() =~= src@.subrange(a as int, i as int));
        if src[i] == 10u8 {
            count = count + 1;
        }
        i = i + 1;
    }
    count >= 2
}

/// The comments adjacent to the token at `next`, among those the tokenizer
/// recorded before it: the trailing run that no blank line interrupts.
pub fn adjacent_comments(
    src: &[u8],
    start: u32,
    found: &Vec<(u32, u32, String)>,
    next: u32,
) -> (r: Vec<String>)
    ensures
        strings_view(r@) == adjacent_texts(src@, start, spans_view(found@), next),
{
    let ghost cs = spans_view(found@);
    let mut j: usize = found.len();
    let mut cur: u32 = next;
    let mut done = false;
    assert(cs.subrange(0, j as int) =~= cs);
    while j > 0 && !done
        invariant
            j <= found@.len(),
            cs == spans_view(found@),
            !done ==> run_start(src@, start, cs, next) == run_start(
                src@,
                start,
                cs.subrange(0, j as int),
                cur,
            ),
            done ==> run_start(src@, start, cs, next) == j,
        decreases j, if done { 0int } else { 1int },
    {
        let ghost sub = cs.subrange(0, j as int);
        assert(sub.drop_last() =~= cs.subrange(0, j - 1));
        assert(sub.last() == cs[j - 1]);
        if has_blank_line(src, start, found[j - 1].1, cur) {
            done = true;
        } else {
            cur = found[j - 1].0;
            j = j - 1;
        }
    }
    let ghost k = run_start(src@, start, cs, next);
    assert(k == j) by {
        if !done {
            assert(j == 0);
        }
    }
    let mut out: Vec<String> = Vec::new();
    let mut i: usize = j;
    while i < found.len()
        invariant
            j <= i <= found@.len(),
            cs == spans_view(found@),
            k == j,
            strings_view(out@) =~= cs.subrange(j as int, i as int).map_values(
                |c: CommentSpan| c.2,
            ),
        decreases found@.len() - i,
    {
        let ghost prev = out@;
        let t = found[i].2.clone();
        out.push(t);
        assert(strings_view(out@) =~= strings_view(prev).push(t@));
        assert(cs.subrange(j as int, i + 1) =~= cs.subrange(j as int, i as int).push(cs[i as int]));
        i = i + 1;
    }
    out
}

/// Pairs a handler with the comments found before its declaration.
pub fn associate_comment(h: &HttpMethod, leading: &Option<Vec<String>>) -> (m: MethodMetadata)
    ensures
        m@ == metadata_of(h@, lines_view(*leading)),
{
    let comment = if h.pos.is_some() {
        comment_lines_of(leading)
    } else {
        None
    };
    MethodMetadata { method_type: h.method_type.clone(), comment }
}

} // verus!
