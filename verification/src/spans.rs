//! The tokenizer: a line, given as its sequence of grapheme clusters, is
//! split into an ordered sequence of spans, each a maximal run of WORD or GAP
//! graphemes, covering the line with no overlap and no omission.
//!
//! Word-boundary policy: a grapheme cluster belongs to a WORD span exactly
//! when its first character is alphanumeric, an underscore, a backslash or an
//! apostrophe (the broad, code-and-contraction-friendly class); every other
//! grapheme belongs to a GAP span.

use crate::unicode::char_is_alphanumeric;
use crate::unicode::is_alnum;
use vstd::prelude::*;
use vstd::string::StrSliceExecFns;

verus! {

/// The classification of a span: a run of word graphemes or a run of
/// everything else.
#[derive(Clone, Copy, Debug, PartialEq, Eq, Structural)]
pub enum SpanKind {
    Word,
    Gap,
}

/// The mathematical model of a span: its kind and its grapheme clusters, each
/// a character sequence.
#[verifier::ext_equal]
pub struct SpanModel {
    pub kind: SpanKind,
    pub graphemes: Seq<Seq<char>>,
}

/// A span of a line: a maximal run of graphemes of one kind.
pub struct Span {
    pub kind: SpanKind,
    pub graphemes: Vec<String>,
}

impl View for Span {
    type V = SpanModel;

    open spec fn view(&self) -> SpanModel {
        SpanModel { kind: self.kind, graphemes: self.graphemes.deep_view() }
    }
}

/// The models of a sequence of spans.
pub open spec fn span_views(spans: Seq<Span>) -> Seq<SpanModel> {
    spans.map_values(|s: Span| s@)
}

/// The word-character class: alphanumeric, underscore, backslash or
/// apostrophe.
pub open spec fn is_word_char(c: char) -> bool {
    is_alnum(c) || c == '_' || c == '\\' || c == '\''
}

/// A grapheme cluster is a word grapheme when its first character is a word
/// character.
pub open spec fn is_word_grapheme(g: Seq<char>) -> bool {
    g.len() > 0 && is_word_char(g[0])
}

/// The kind of the span a grapheme belongs to.
pub open spec fn kind_of_grapheme(g: Seq<char>) -> SpanKind {
    if is_word_grapheme(g) {
        SpanKind::Word
    } else {
        SpanKind::Gap
    }
}

/// The spans of a line given as its grapheme clusters: each grapheme joins
/// the last span when the kinds agree, else it opens a new span. The result
/// is the unique partition of the line into maximal single-kind runs.
pub open spec fn spans_of(gs: Seq<Seq<char>>) -> Seq<SpanModel>
    decreases gs.len(),
{
    if gs.len() == 0 {
        Seq::empty()
    } else {
        let prev = spans_of(gs.drop_last());
        let g = gs.last();
        let k = kind_of_grapheme(g);
        if prev.len() > 0 && prev.last().kind == k {
            prev.update(
                prev.len() - 1,
                SpanModel { kind: k, graphemes: prev.last().graphemes.push(g) },
            )
        } else {
            prev.push(SpanModel { kind: k, graphemes: seq![g] })
        }
    }
}

/// The grapheme clusters of a sequence of spans, concatenated in order.
pub open spec fn spans_text(spans: Seq<SpanModel>) -> Seq<Seq<char>>
    decreases spans.len(),
{
    if spans.len() == 0 {
        Seq::empty()
    } else {
        spans_text(spans.drop_last()) + spans.last().graphemes
    }
}

/// The number of WORD spans in a sequence of spans.
pub open spec fn word_count(spans: Seq<SpanModel>) -> nat
    decreases spans.len(),
{
    if spans.len() == 0 {
        0
    } else {
        word_count(spans.drop_last()) + (if spans.last().kind == SpanKind::Word {
            1nat
        } else {
            0nat
        })
    }
}

/// Tokenization loses nothing and invents nothing: the graphemes of the
/// spans of a line, concatenated in order, are exactly the graphemes of the
/// line. Together with the segmentation contract (the concatenation of a
/// line's graphemes is the line), the style-stripped text of the spans
/// reproduces the original line character for character.
pub proof fn lemma_tokenize_round_trip(gs: Seq<Seq<char>>)
    ensures
        spans_text(spans_of(gs)) == gs,
    decreases gs.len(),
{
    if gs.len() == 0 {
        assert(spans_text(spans_of(gs)) =~= gs);
    } else {
        lemma_tokenize_round_trip(gs.drop_last());
        let prev = spans_of(gs.drop_last());
        let g = gs.last();
        let k = kind_of_grapheme(g);
        let cur = spans_of(gs);
        if prev.len() > 0 && prev.last().kind == k {
            assert(cur.drop_last() =~= prev.drop_last());
            assert(cur.last().graphemes =~= prev.last().graphemes.push(g));
            assert(spans_text(cur) =~= spans_text(prev.drop_last()) + prev.last().graphemes.push(
                g,
            ));
            assert(spans_text(prev.drop_last()) + prev.last().graphemes.push(g) =~= (spans_text(
                prev.drop_last(),
            ) + prev.last().graphemes).push(g));
            assert(spans_text(cur) =~= gs);
        } else {
            assert(cur.drop_last() =~= prev);
            assert(spans_text(cur) =~= spans_text(prev) + seq![g]);
            assert(spans_text(cur) =~= gs);
        }
    }
}

/// Character-level coverage: when a line's grapheme clusters concatenate to
/// the line, the grapheme clusters of its spans, concatenated across all
/// spans in order, reproduce the line character for character.
pub proof fn lemma_spans_cover_line(line: Seq<char>, gs: Seq<Seq<char>>)
    requires
        gs.flatten() == line,
    ensures
        spans_text(spans_of(gs)).flatten() == line,
{
    lemma_tokenize_round_trip(gs);
}

/// A line has no more WORD spans than grapheme clusters.
pub proof fn lemma_word_count_le(gs: Seq<Seq<char>>)
    ensures
        word_count(spans_of(gs)) <= gs.len(),
    decreases gs.len(),
{
    if gs.len() == 0 {
    } else {
        lemma_word_count_le(gs.drop_last());
        let prev = spans_of(gs.drop_last());
        let g = gs.last();
        let k = kind_of_grapheme(g);
        let cur = spans_of(gs);
        if prev.len() > 0 && prev.last().kind == k {
            assert(cur.drop_last() =~= prev.drop_last());
            assert(cur.last().kind == prev.last().kind);
            assert(word_count(cur) == word_count(prev));
        } else {
            assert(cur.drop_last() =~= prev);
        }
    }
}

/// Appending one span to a stream adds one to the word count when it is a
/// WORD span, and nothing otherwise.
pub proof fn lemma_word_count_take_succ(spans: Seq<SpanModel>, i: int)
    requires
        0 <= i < spans.len(),
    ensures
        word_count(spans.take(i + 1)) == word_count(spans.take(i)) + (if spans[i].kind
            == SpanKind::Word {
            1nat
        } else {
            0nat
        }),
{
    assert(spans.take(i + 1).drop_last() =~= spans.take(i));
    assert(spans.take(i + 1).last() == spans[i]);
}

/// The word count of a prefix of a stream never exceeds that of the stream.
pub proof fn lemma_word_count_take_le(spans: Seq<SpanModel>, i: int)
    requires
        0 <= i <= spans.len(),
    ensures
        word_count(spans.take(i)) <= word_count(spans),
    decreases spans.len() - i,
{
    if i == spans.len() {
        assert(spans.take(i) =~= spans);
    } else {
        lemma_word_count_take_succ(spans, i);
        lemma_word_count_take_le(spans, i + 1);
    }
}

/// The kind of the span one grapheme belongs to.
fn grapheme_kind(g: &str) -> (k: SpanKind)
    ensures
        k == kind_of_grapheme(g@),
{
    if g.is_empty() {
        SpanKind::Gap
    } else {
        let c = g.get_char(0);
        if char_is_alphanumeric(c) || c == '_' || c == '\\' || c == '\'' {
            SpanKind::Word
        } else {
            SpanKind::Gap
        }
    }
}

/// Splits a line, given as its grapheme clusters in order, into its spans:
/// maximal runs of word graphemes become WORD spans, maximal runs of other
/// graphemes become GAP spans, and together they cover the line exactly.
pub fn tokenize(gs: &Vec<String>) -> (spans: Vec<Span>)
    ensures
        span_views(spans@) == spans_of(gs.deep_view()),
{
    let mut spans: Vec<Span> = Vec::new();
    let mut i: usize = 0;
    while i < gs.len()
        invariant
            i <= gs.len(),
            span_views(spans@) == spans_of(gs.deep_view().take(i as int)),
        decreases gs.len() - i,
    {
        let g: &String = &gs[i];
        let k = grapheme_kind(g.as_str());
        let ghost old_spans = spans@;
        let n = spans.len();
        let mut extend = false;
        if n > 0 {
            if spans[n - 1].kind == k {
                extend = true;
            }
        }
        if extend {
            let mut last = spans.pop().unwrap();
            last.graphemes.push(g.clone());
            spans.push(last);
        } else {
            let mut run: Vec<String> = Vec::new();
            run.push(g.clone());
            spans.push(Span { kind: k, graphemes: run });
        }
        proof {
            let dv = gs.deep_view();
            assert(dv.take(i + 1).drop_last() =~= dv.take(i as int));
            assert(dv.take(i + 1).last() == dv[i as int]);
            assert(dv[i as int] == g@);
            let prev = spans_of(dv.take(i as int));
            assert(prev == span_views(old_spans));
            if extend {
                let m = SpanModel { kind: k, graphemes: prev.last().graphemes.push(g@) };
                assert(spans@.last()@ =~~= m) by {
                    assert(spans@.last().kind == k);
                    assert(spans@.last()@.graphemes =~~= old_spans.last()@.graphemes.push(g@));
                    assert(old_spans.last()@.graphemes == prev.last().graphemes);
                };
                assert(span_views(spans@) =~~= prev.update(prev.len() - 1, m));
                assert(spans_of(dv.take(i + 1)) == prev.update(prev.len() - 1, m));
            } else {
                let m = SpanModel { kind: k, graphemes: seq![g@] };
                assert(spans@.last()@ =~~= m) by {
                    assert(spans@.last()@.graphemes =~~= seq![g@]);
                };
                assert(span_views(spans@) =~~= prev.push(m));
                assert(spans_of(dv.take(i + 1)) == prev.push(m));
            }
            assert(span_views(spans@) == spans_of(dv.take(i + 1)));
        }
        i = i + 1;
    }
    proof {
        assert(gs.deep_view().take(gs.len() as int) =~= gs.deep_view());
    }
    spans
}

} // verus!
