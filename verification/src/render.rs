//! The renderer and the saccade schedule over a stream of spans. Every
//! grapheme of a GAP span, of a non-eligible WORD span, and of an eligible
//! word's dimmed zone is wrapped dimmed; a grapheme of an eligible word's
//! emphasized zone is wrapped bold when contrast is on and left unstyled
//! otherwise. A word is eligible when the stream-wide word counter, after
//! counting it, is a multiple of the cycle length.

use crate::ansi::bold_frag;
use crate::ansi::dim_frag;
use crate::ansi::paint_bold;
use crate::ansi::paint_dimmed;
use crate::fixation::boundary_of;
use crate::fixation::emphasis_boundary;
use crate::spans::lemma_word_count_take_le;
use crate::spans::lemma_word_count_take_succ;
use crate::spans::span_views;
use crate::spans::spans_of;
use crate::spans::word_count;
use crate::spans::Span;
use crate::spans::SpanKind;
use crate::spans::SpanModel;
use vstd::prelude::*;
use vstd::string::StringExecFns;

verus! {

/// The rendered fragment of the grapheme at index `i` of a word of `n`
/// graphemes: inside an eligible word's emphasized zone it is bold under
/// contrast and bare otherwise; everywhere else it is dimmed.
pub open spec fn word_frag(
    contrast: bool,
    tenths: nat,
    eligible: bool,
    n: nat,
    i: nat,
    g: Seq<char>,
) -> Seq<char> {
    if eligible && i < boundary_of(n, tenths) {
        if contrast {
            bold_frag(g)
        } else {
            g
        }
    } else {
        dim_frag(g)
    }
}

/// The concatenated fragments of the first `i` graphemes of a word span.
pub open spec fn render_word_upto(
    contrast: bool,
    tenths: nat,
    eligible: bool,
    gs: Seq<Seq<char>>,
    i: int,
) -> Seq<char>
    decreases i,
{
    if i <= 0 {
        Seq::empty()
    } else {
        render_word_upto(contrast, tenths, eligible, gs, i - 1) + word_frag(
            contrast,
            tenths,
            eligible,
            gs.len(),
            (i - 1) as nat,
            gs[i - 1],
        )
    }
}

/// The rendering of one span's graphemes. A GAP span, and a WORD span that is
/// not eligible, renders with `eligible == false`: every grapheme dimmed.
pub open spec fn render_word_spec(
    contrast: bool,
    tenths: nat,
    eligible: bool,
    gs: Seq<Seq<char>>,
) -> Seq<char> {
    render_word_upto(contrast, tenths, eligible, gs, gs.len() as int)
}

/// The concatenated dimmed fragments of the first `i` graphemes.
pub open spec fn dim_all_upto(gs: Seq<Seq<char>>, i: int) -> Seq<char>
    decreases i,
{
    if i <= 0 {
        Seq::empty()
    } else {
        dim_all_upto(gs, i - 1) + dim_frag(gs[i - 1])
    }
}

/// Every grapheme wrapped dimmed, in order.
pub open spec fn dim_all(gs: Seq<Seq<char>>) -> Seq<char> {
    dim_all_upto(gs, gs.len() as int)
}

/// The rendering of one span when the stream-wide counter stood at
/// `counter_before` just before it: a WORD span counts itself first and is
/// eligible when the new count is a multiple of the cycle length; a GAP span
/// leaves the counter alone and is never emphasized.
pub open spec fn render_span_spec(
    contrast: bool,
    tenths: nat,
    cycle: nat,
    counter_before: nat,
    s: SpanModel,
) -> Seq<char> {
    if s.kind == SpanKind::Word {
        render_word_spec(contrast, tenths, (counter_before + 1) % cycle == 0, s.graphemes)
    } else {
        render_word_spec(contrast, tenths, false, s.graphemes)
    }
}

/// The full rendering of a stream of spans, starting from word counter
/// `counter0`: each span is rendered with the counter as it stands when the
/// span is reached, and the fragments are concatenated in span order.
pub open spec fn styled_stream(
    contrast: bool,
    tenths: nat,
    cycle: nat,
    counter0: nat,
    spans: Seq<SpanModel>,
) -> Seq<char>
    decreases spans.len(),
{
    if spans.len() == 0 {
        Seq::empty()
    } else {
        styled_stream(contrast, tenths, cycle, counter0, spans.drop_last()) + render_span_spec(
            contrast,
            tenths,
            cycle,
            counter0 + word_count(spans.drop_last()),
            spans.last(),
        )
    }
}

/// The word counter as it stands just before span `i` of a stream that began
/// at `counter0`.
pub open spec fn counter_before_span(counter0: nat, spans: Seq<SpanModel>, i: int) -> nat {
    counter0 + word_count(spans.take(i))
}

/// Whether span `i` is an emphasized word of its stream.
pub open spec fn span_eligible(cycle: nat, counter0: nat, spans: Seq<SpanModel>, i: int) -> bool {
    spans[i].kind == SpanKind::Word && (counter_before_span(counter0, spans, i) + 1) % cycle == 0
}

/// The stream rendering grows span by span: rendering one more span appends
/// exactly that span's fragment, rendered at the counter it is reached with.
pub proof fn lemma_render_at(
    contrast: bool,
    tenths: nat,
    cycle: nat,
    counter0: nat,
    spans: Seq<SpanModel>,
    i: int,
)
    requires
        0 <= i < spans.len(),
    ensures
        styled_stream(contrast, tenths, cycle, counter0, spans.take(i + 1)) == styled_stream(
            contrast,
            tenths,
            cycle,
            counter0,
            spans.take(i),
        ) + render_span_spec(
            contrast,
            tenths,
            cycle,
            counter_before_span(counter0, spans, i),
            spans[i],
        ),
{
    assert(spans.take(i + 1).drop_last() =~= spans.take(i));
    assert(spans.take(i + 1).last() == spans[i]);
}

/// Uniformity of the unemphasized case: a span rendered without eligibility
/// shows every grapheme dimmed, whatever the contrast and the ratio.
pub proof fn lemma_uniform_dim(contrast: bool, tenths: nat, gs: Seq<Seq<char>>)
    ensures
        render_word_spec(contrast, tenths, false, gs) == dim_all(gs),
{
    lemma_uniform_dim_upto(contrast, tenths, gs, gs.len() as int);
}

proof fn lemma_uniform_dim_upto(contrast: bool, tenths: nat, gs: Seq<Seq<char>>, i: int)
    ensures
        render_word_upto(contrast, tenths, false, gs, i) == dim_all_upto(gs, i),
    decreases i,
{
    if i <= 0 {
    } else {
        lemma_uniform_dim_upto(contrast, tenths, gs, i - 1);
    }
}

/// The contrast toggle reaches exactly the emphasized zone: below the
/// boundary of an eligible word a grapheme renders bold under contrast and
/// bare without it; at and beyond the boundary it renders dimmed either way.
pub proof fn lemma_contrast_toggle(tenths: nat, n: nat, i: nat, g: Seq<char>)
    ensures
        i < boundary_of(n, tenths) ==> word_frag(true, tenths, true, n, i, g) == bold_frag(g),
        i < boundary_of(n, tenths) ==> word_frag(false, tenths, true, n, i, g) == g,
        i >= boundary_of(n, tenths) ==> word_frag(true, tenths, true, n, i, g) == dim_frag(g)
            && word_frag(false, tenths, true, n, i, g) == dim_frag(g),
{
}

/// Cycle correctness: in a stream whose counter starts at zero, a WORD span
/// is eligible exactly when its one-indexed position among the stream's words
/// is a multiple of the cycle length.
pub proof fn lemma_cycle_correctness(cycle: nat, spans: Seq<SpanModel>, i: int)
    requires
        1 <= cycle,
        0 <= i < spans.len(),
        spans[i].kind == SpanKind::Word,
    ensures
        span_eligible(cycle, 0, spans, i) <==> word_count(spans.take(i + 1)) % cycle == 0,
{
    lemma_word_count_take_succ(spans, i);
}

/// An empty line yields no spans, an empty rendering, and no words counted.
pub proof fn lemma_empty_stream(
    contrast: bool,
    tenths: nat,
    cycle: nat,
    counter0: nat,
    gs: Seq<Seq<char>>,
)
    requires
        gs.len() == 0,
    ensures
        spans_of(gs) == Seq::<SpanModel>::empty(),
        styled_stream(contrast, tenths, cycle, counter0, spans_of(gs)) == Seq::<char>::empty(),
        word_count(spans_of(gs)) == 0,
{
}

/// Renders the graphemes of one span: each grapheme in order becomes its
/// fragment under the span's eligibility, the configured contrast and the
/// fixation ratio.
pub fn render_word(contrast: bool, tenths: usize, eligible: bool, gs: &Vec<String>) -> (r: String)
    requires
        1 <= tenths <= 10,
    ensures
        r@ == render_word_spec(contrast, tenths as nat, eligible, gs.deep_view()),
{
    let b = emphasis_boundary(gs.len(), tenths);
    let mut out = String::new();
    let mut i: usize = 0;
    while i < gs.len()
        invariant
            1 <= tenths <= 10,
            i <= gs.len(),
            b == boundary_of(gs.deep_view().len(), tenths as nat),
            out@ == render_word_upto(contrast, tenths as nat, eligible, gs.deep_view(), i as int),
        decreases gs.len() - i,
    {
        let g: &String = &gs[i];
        proof {
            assert(gs.deep_view()[i as int] == gs@[i as int]@);
        }
        if eligible && i < b {
            if contrast {
                let f = paint_bold(g.as_str());
                out.append(f.as_str());
            } else {
                out.append(g.as_str());
            }
        } else {
            let f = paint_dimmed(g.as_str());
            out.append(f.as_str());
        }
        i = i + 1;
    }
    out
}

/// Renders a whole stream of spans, threading the stream-wide word counter:
/// each WORD span advances the counter and is emphasized exactly when the new
/// count is a multiple of the cycle length; GAP spans render fully dimmed.
/// Returns the styled line and the counter after the line.
pub fn render_spans(
    contrast: bool,
    tenths: usize,
    cycle: usize,
    counter0: u64,
    spans: &Vec<Span>,
) -> (res: (String, u64))
    requires
        1 <= tenths <= 10,
        1 <= cycle,
        counter0 + word_count(span_views(spans@)) <= u64::MAX,
    ensures
        res.0@ == styled_stream(
            contrast,
            tenths as nat,
            cycle as nat,
            counter0 as nat,
            span_views(spans@),
        ),
        res.1 == counter0 + word_count(span_views(spans@)),
{
    let ghost model = span_views(spans@);
    let mut out = String::new();
    let mut counter: u64 = counter0;
    let mut i: usize = 0;
    while i < spans.len()
        invariant
            1 <= tenths <= 10,
            1 <= cycle,
            i <= spans.len(),
            model == span_views(spans@),
            model.len() == spans@.len(),
            counter0 + word_count(model) <= u64::MAX,
            counter == counter0 + word_count(model.take(i as int)),
            out@ == styled_stream(
                contrast,
                tenths as nat,
                cycle as nat,
                counter0 as nat,
                model.take(i as int),
            ),
        decreases spans.len() - i,
    {
        let s: &Span = &spans[i];
        proof {
            assert(model[i as int] == spans@[i as int]@);
            lemma_word_count_take_succ(model, i as int);
            lemma_word_count_take_le(model, i as int + 1);
            lemma_render_at(
                contrast,
                tenths as nat,
                cycle as nat,
                counter0 as nat,
                model,
                i as int,
            );
        }
        let frag: String;
        if s.kind == SpanKind::Word {
            counter = counter + 1;
            let eligible = counter % (cycle as u64) == 0;
            frag = render_word(contrast, tenths, eligible, &s.graphemes);
        } else {
            frag = render_word(contrast, tenths, false, &s.graphemes);
        }
        out.append(frag.as_str());
        i = i + 1;
    }
    proof {
        assert(model.take(spans@.len() as int) =~= model);
    }
    (out, counter)
}

} // verus!
