//! A terminal "flow state reading" styler: within each word of a line, a
//! leading fraction of grapheme clusters is emphasized and the remainder
//! dimmed, with emphasis gated by a cyclical skip pattern across words
//! ("saccades") that is continuous over the whole input stream.
//!
//! A line is segmented into grapheme clusters, tokenized into WORD and GAP
//! spans that cover it exactly, and rendered grapheme by grapheme: graphemes
//! of an eligible word's emphasized zone are bold (under contrast) or bare,
//! everything else is dimmed with standard terminal escape sequences.

mod ansi;
mod fixation;
mod render;
mod spans;
mod styler;
mod unicode;

pub use ansi::bold_frag;
pub use ansi::dim_frag;
pub use ansi::sgr_bold_prefix;
pub use ansi::sgr_dim_prefix;
pub use ansi::sgr_reset;
pub use fixation::boundary_of;
pub use fixation::emphasis_boundary;
pub use render::counter_before_span;
pub use render::dim_all;
pub use render::dim_all_upto;
pub use render::lemma_contrast_toggle;
pub use render::lemma_cycle_correctness;
pub use render::lemma_empty_stream;
pub use render::lemma_render_at;
pub use render::lemma_uniform_dim;
pub use render::render_span_spec;
pub use render::render_spans;
pub use render::render_word;
pub use render::render_word_spec;
pub use render::render_word_upto;
pub use render::span_eligible;
pub use render::styled_stream;
pub use render::word_frag;
pub use spans::is_word_char;
pub use spans::is_word_grapheme;
pub use spans::kind_of_grapheme;
pub use spans::lemma_spans_cover_line;
pub use spans::lemma_tokenize_round_trip;
pub use spans::lemma_word_count_le;
pub use spans::lemma_word_count_take_le;
pub use spans::lemma_word_count_take_succ;
pub use spans::span_views;
pub use spans::spans_of;
pub use spans::spans_text;
pub use spans::tokenize;
pub use spans::word_count;
pub use spans::Span;
pub use spans::SpanKind;
pub use spans::SpanModel;
pub use styler::cycle_of;
pub use styler::tenths_of;
pub use styler::FSRXStyler;
pub use styler::Intensity;
pub use unicode::graphemes_of;
pub use unicode::is_alnum;
pub use unicode::lemma_flatten_len_ge_count;
