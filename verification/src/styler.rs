//! The styler: configuration resolved from the three intensity levels, the
//! one piece of stream-wide state (the word counter), and line styling.

use crate::render::lemma_empty_stream;
use crate::render::render_spans;
use crate::render::render_word;
use crate::render::render_word_spec;
use crate::render::styled_stream;
use crate::spans::lemma_word_count_le;
use crate::spans::spans_of;
use crate::spans::tokenize;
use crate::spans::word_count;
use crate::unicode::graphemes;
use crate::unicode::graphemes_of;
use crate::unicode::lemma_flatten_len_ge_count;
use vstd::prelude::*;

verus! {

/// A three-level intensity, for both the fixation ratio and the saccade
/// frequency.
pub enum Intensity {
    L,
    M,
    H,
}

/// The saccade cycle length an intensity stands for: a higher saccade
/// intensity means a shorter cycle, that is, more frequent emphasis.
pub open spec fn cycle_of(i: Intensity) -> nat {
    match i {
        Intensity::H => 1,
        Intensity::M => 2,
        Intensity::L => 3,
    }
}

/// The fixation ratio an intensity stands for, in tenths.
pub open spec fn tenths_of(i: Intensity) -> nat {
    match i {
        Intensity::L => 3,
        Intensity::M => 5,
        Intensity::H => 7,
    }
}

/// The styler: an immutable configuration and the stream-wide word counter.
/// One instance lives for a whole input stream, so the saccade cycle is
/// continuous over all its lines.
pub struct FSRXStyler {
    /// Fixation ratio in tenths: the emphasized prefix of an eligible word is
    /// this fraction of its grapheme clusters, rounded up.
    pub fixation_tenths: usize,
    /// When on, the emphasized zone is bold; when off, it is unstyled.
    pub contrast: bool,
    /// The saccade cycle length: every `saccade_mode`-th word is emphasized.
    pub saccade_mode: usize,
    /// The number of WORD spans processed so far, across the whole stream.
    pub word_counter: u64,
}

impl FSRXStyler {
    /// Configuration validity: the fixation ratio lies in (0, 1] and the
    /// cycle length is one of the three configured lengths. Construction
    /// establishes it and styling preserves it, so an out-of-range ratio or a
    /// zero cycle length cannot reach the stream.
    pub open spec fn wf(&self) -> bool {
        &&& 1 <= self.fixation_tenths <= 10
        &&& 1 <= self.saccade_mode <= 3
    }

    /// Builds a styler from the resolved configuration, with no words
    /// processed yet.
    pub fn new(fixation: Intensity, contrast: bool, saccade_mode: Intensity) -> (s: FSRXStyler)
        ensures
            s.wf(),
            s.fixation_tenths == tenths_of(fixation),
            s.contrast == contrast,
            s.saccade_mode == cycle_of(saccade_mode),
            s.word_counter == 0,
    {
        let mode: usize = match saccade_mode {
            Intensity::H => 1,
            Intensity::M => 2,
            Intensity::L => 3,
        };
        let fix: usize = match fixation {
            Intensity::H => 7,
            Intensity::M => 5,
            Intensity::L => 3,
        };
        FSRXStyler { fixation_tenths: fix, contrast, saccade_mode: mode, word_counter: 0 }
    }

    /// Styles one line: the line is segmented into grapheme clusters,
    /// tokenized into spans, and rendered, while the word counter advances by
    /// exactly the number of WORD spans and the configuration stays fixed.
    /// The result is the full rendering of the line's spans from the counter
    /// the stream had reached.
    pub fn style_line(&mut self, unstyled_line: &str) -> (styled_line: String)
        requires
            old(self).wf(),
            old(self).word_counter + unstyled_line@.len() <= u64::MAX,
        ensures
            final(self).wf(),
            final(self).fixation_tenths == old(self).fixation_tenths,
            final(self).contrast == old(self).contrast,
            final(self).saccade_mode == old(self).saccade_mode,
            final(self).word_counter == old(self).word_counter + word_count(
                spans_of(graphemes_of(unstyled_line@)),
            ),
            styled_line@ == styled_stream(
                old(self).contrast,
                old(self).fixation_tenths as nat,
                old(self).saccade_mode as nat,
                old(self).word_counter as nat,
                spans_of(graphemes_of(unstyled_line@)),
            ),
            unstyled_line@.len() == 0 ==> styled_line@ == Seq::<char>::empty(),
            unstyled_line@.len() == 0 ==> final(self).word_counter == old(self).word_counter,
    {
        let gs = graphemes(unstyled_line);
        proof {
            lemma_flatten_len_ge_count(gs.deep_view());
            lemma_word_count_le(gs.deep_view());
            if unstyled_line@.len() == 0 {
                lemma_empty_stream(
                    self.contrast,
                    self.fixation_tenths as nat,
                    self.saccade_mode as nat,
                    self.word_counter as nat,
                    gs.deep_view(),
                );
            }
        }
        let spans = tokenize(&gs);
        let (styled_line, counter) = render_spans(
            self.contrast,
            self.fixation_tenths,
            self.saccade_mode,
            self.word_counter,
            &spans,
        );
        self.word_counter = counter;
        styled_line
    }

    /// Styles one substring on its own, outside the stream: its graphemes are
    /// rendered as a single span that is emphasized exactly when it is a word
    /// (`should_process`) the saccade schedule selected (`saccade_hit`). The
    /// counter is not consulted and does not move.
    pub fn style_substr(&self, substr: &str, should_process: bool, saccade_hit: bool) -> (styled:
        String)
        requires
            self.wf(),
        ensures
            styled@ == render_word_spec(
                self.contrast,
                self.fixation_tenths as nat,
                should_process && saccade_hit,
                graphemes_of(substr@),
            ),
    {
        let gs = graphemes(substr);
        render_word(self.contrast, self.fixation_tenths, should_process && saccade_hit, &gs)
    }
}

} // verus!
