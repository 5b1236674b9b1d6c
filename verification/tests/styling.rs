use fsrx_lib::emphasis_boundary;
use fsrx_lib::tokenize;
use fsrx_lib::FSRXStyler;
use fsrx_lib::Intensity;
use fsrx_lib::SpanKind;

fn dim(s: &str) -> String {
    format!("\u{1b}[2m{}\u{1b}[0m", s)
}

fn bold(s: &str) -> String {
    format!("\u{1b}[1m{}\u{1b}[0m", s)
}

fn graphemes_of_strs(parts: &[&str]) -> Vec<String> {
    parts.iter().map(|p| p.to_string()).collect()
}

#[test]
fn end_to_end_the_cat_sat() {
    // fixation Medium (ratio 0.5), saccade High (cycle 1), contrast off:
    // every word eligible; each 3-letter word has boundary ceil(3 * 0.5) = 2.
    let mut styler = FSRXStyler::new(Intensity::M, false, Intensity::H);
    let out = styler.style_line("the cat sat");
    let expected = format!(
        "th{}{}ca{}{}sa{}",
        dim("e"),
        dim(" "),
        dim("t"),
        dim(" "),
        dim("t")
    );
    assert_eq!(out, expected);
    assert_eq!(styler.word_counter, 3);
}

#[test]
fn empty_line_yields_empty_output_and_counter_unchanged() {
    let mut styler = FSRXStyler::new(Intensity::M, false, Intensity::H);
    styler.style_line("one two");
    let counter_before = styler.word_counter;
    let out = styler.style_line("");
    assert_eq!(out, "");
    assert_eq!(styler.word_counter, counter_before);
}

#[test]
fn counter_counts_words_across_lines() {
    let mut styler = FSRXStyler::new(Intensity::M, false, Intensity::H);
    assert_eq!(styler.word_counter, 0);
    styler.style_line("a b");
    assert_eq!(styler.word_counter, 2);
    styler.style_line("c d e");
    assert_eq!(styler.word_counter, 5);
    styler.style_line("...");
    assert_eq!(styler.word_counter, 5);
}

#[test]
fn cycle_two_emphasizes_every_second_word() {
    // saccade Medium: cycle 2. Words A B C D in stream order: the second and
    // the fourth are eligible; fixation Medium on 1-letter words: boundary 1.
    let mut styler = FSRXStyler::new(Intensity::M, false, Intensity::M);
    let out = styler.style_line("A B C D");
    let expected = format!(
        "{}{}B{}{}{}D",
        dim("A"),
        dim(" "),
        dim(" "),
        dim("C"),
        dim(" ")
    );
    assert_eq!(out, expected);
}

#[test]
fn cycle_two_phase_is_continuous_across_lines() {
    let mut styler = FSRXStyler::new(Intensity::M, false, Intensity::M);
    let first = styler.style_line("A B C");
    assert_eq!(first, format!("{}{}B{}{}", dim("A"), dim(" "), dim(" "), dim("C")));
    // The stream has seen three words; the next word is the fourth and is
    // eligible. A counter reset per line would dim it instead.
    let second = styler.style_line("D E");
    assert_eq!(second, format!("D{}{}", dim(" "), dim("E")));
}

#[test]
fn cycle_three_emphasizes_every_third_word() {
    let mut styler = FSRXStyler::new(Intensity::M, false, Intensity::L);
    let out = styler.style_line("a b c d e f");
    let expected = format!(
        "{}{}{}{}c{}{}{}{}{}f",
        dim("a"),
        dim(" "),
        dim("b"),
        dim(" "),
        dim(" "),
        dim("d"),
        dim(" "),
        dim("e"),
        dim(" ")
    );
    assert_eq!(out, expected);
}

#[test]
fn boundary_five_letters_half_ratio_is_three() {
    let mut styler = FSRXStyler::new(Intensity::M, false, Intensity::H);
    let out = styler.style_line("abcde");
    assert_eq!(out, format!("abc{}{}", dim("d"), dim("e")));
}

#[test]
fn boundary_one_letter_low_ratio_is_one() {
    let mut styler = FSRXStyler::new(Intensity::L, false, Intensity::H);
    let out = styler.style_line("a");
    assert_eq!(out, "a");
}

#[test]
fn boundary_high_ratio_seven_tenths() {
    // 4 graphemes at ratio 0.7: boundary ceil(2.8) = 3.
    let mut styler = FSRXStyler::new(Intensity::H, false, Intensity::H);
    let out = styler.style_line("abcd");
    assert_eq!(out, format!("abc{}", dim("d")));
}

#[test]
fn emphasis_boundary_exact_values() {
    assert_eq!(emphasis_boundary(5, 5), 3);
    assert_eq!(emphasis_boundary(1, 3), 1);
    assert_eq!(emphasis_boundary(3, 5), 2);
    assert_eq!(emphasis_boundary(4, 7), 3);
    assert_eq!(emphasis_boundary(0, 7), 0);
    assert_eq!(emphasis_boundary(10, 10), 10);
}

#[test]
fn contrast_bolds_the_emphasized_zone_only() {
    let mut plain = FSRXStyler::new(Intensity::M, false, Intensity::H);
    let mut contrasted = FSRXStyler::new(Intensity::M, true, Intensity::H);
    let plain_out = plain.style_line("the");
    let bold_out = contrasted.style_line("the");
    assert_eq!(plain_out, format!("th{}", dim("e")));
    assert_eq!(bold_out, format!("{}{}{}", bold("t"), bold("h"), dim("e")));
}

#[test]
fn gap_only_line_renders_fully_dimmed() {
    let mut styler = FSRXStyler::new(Intensity::H, true, Intensity::H);
    let out = styler.style_line("!?;");
    assert_eq!(out, format!("{}{}{}", dim("!"), dim("?"), dim(";")));
    assert_eq!(styler.word_counter, 0);
}

#[test]
fn non_eligible_word_renders_like_a_gap() {
    // Cycle 3: the first and second words are not eligible.
    let mut styler = FSRXStyler::new(Intensity::H, true, Intensity::L);
    let out = styler.style_line("ab cd");
    assert_eq!(
        out,
        format!("{}{}{}{}{}", dim("a"), dim("b"), dim(" "), dim("c"), dim("d"))
    );
}

#[test]
fn apostrophes_and_underscores_belong_to_words() {
    // "don't" is one 5-grapheme word: boundary ceil(2.5) = 3.
    let mut styler = FSRXStyler::new(Intensity::M, false, Intensity::H);
    let out = styler.style_line("don't");
    assert_eq!(out, format!("don{}{}", dim("'"), dim("t")));
    let mut styler2 = FSRXStyler::new(Intensity::M, false, Intensity::H);
    let out2 = styler2.style_line("a_b");
    assert_eq!(out2, format!("a_{}", dim("b")));
    assert_eq!(styler2.word_counter, 1);
}

#[test]
fn combining_marks_count_as_one_grapheme() {
    // "e\u{301}tude": 5 grapheme clusters but 6 chars and 7 bytes. At ratio
    // 0.5 the boundary is 3 grapheme clusters, and the accent stays glued to
    // its base letter.
    let mut styler = FSRXStyler::new(Intensity::M, false, Intensity::H);
    let out = styler.style_line("e\u{301}tude");
    assert_eq!(out, format!("e\u{301}tu{}{}", dim("d"), dim("e")));
}

#[test]
fn style_substr_emphasizes_only_processed_hits() {
    let styler = FSRXStyler::new(Intensity::M, false, Intensity::H);
    let hit = styler.style_substr("hello", true, true);
    assert_eq!(hit, format!("hel{}{}", dim("l"), dim("o")));
    let miss = styler.style_substr("hello", true, false);
    let all_dim = format!(
        "{}{}{}{}{}",
        dim("h"),
        dim("e"),
        dim("l"),
        dim("l"),
        dim("o")
    );
    assert_eq!(miss, all_dim);
    let gap = styler.style_substr("hello", false, false);
    assert_eq!(gap, all_dim);
}

#[test]
fn new_resolves_intensities() {
    let s = FSRXStyler::new(Intensity::L, true, Intensity::H);
    assert_eq!(s.fixation_tenths, 3);
    assert_eq!(s.saccade_mode, 1);
    assert!(s.contrast);
    assert_eq!(s.word_counter, 0);
    let s2 = FSRXStyler::new(Intensity::H, false, Intensity::L);
    assert_eq!(s2.fixation_tenths, 7);
    assert_eq!(s2.saccade_mode, 3);
    let s3 = FSRXStyler::new(Intensity::M, false, Intensity::M);
    assert_eq!(s3.fixation_tenths, 5);
    assert_eq!(s3.saccade_mode, 2);
}

#[test]
fn tokenize_partitions_into_maximal_runs() {
    let gs = graphemes_of_strs(&["h", "i", ",", " ", "4", "2", "!"]);
    let spans = tokenize(&gs);
    assert_eq!(spans.len(), 4);
    assert_eq!(spans[0].kind, SpanKind::Word);
    assert_eq!(spans[0].graphemes, graphemes_of_strs(&["h", "i"]));
    assert_eq!(spans[1].kind, SpanKind::Gap);
    assert_eq!(spans[1].graphemes, graphemes_of_strs(&[",", " "]));
    assert_eq!(spans[2].kind, SpanKind::Word);
    assert_eq!(spans[2].graphemes, graphemes_of_strs(&["4", "2"]));
    assert_eq!(spans[3].kind, SpanKind::Gap);
    assert_eq!(spans[3].graphemes, graphemes_of_strs(&["!"]));
}

#[test]
fn tokenize_round_trips_the_line() {
    let gs = graphemes_of_strs(&[" ", "a", "b", " ", " ", "c", "!", "!"]);
    let spans = tokenize(&gs);
    let mut rebuilt: Vec<String> = Vec::new();
    for s in &spans {
        rebuilt.extend(s.graphemes.iter().cloned());
    }
    assert_eq!(rebuilt, gs);
}

#[test]
fn leading_and_trailing_gaps_survive() {
    let mut styler = FSRXStyler::new(Intensity::M, false, Intensity::H);
    // "hi" has two graphemes: boundary ceil(2 * 0.5) = 1.
    let out = styler.style_line("  hi  ");
    let expected = format!(
        "{}{}h{}{}{}",
        dim(" "),
        dim(" "),
        dim("i"),
        dim(" "),
        dim(" ")
    );
    assert_eq!(out, expected);
}

#[test]
fn styled_output_strips_back_to_the_line() {
    fn strip(s: &str) -> String {
        s.replace("\u{1b}[1m", "")
            .replace("\u{1b}[2m", "")
            .replace("\u{1b}[0m", "")
    }
    let lines = [
        "the quick brown fox, jumps! over_the \\lazy dog's 42nd back",
        "  spaced   out  ",
        "e\u{301}tude de\u{301}ja\u{300} vu",
        "!@#$%^&*()",
        "",
    ];
    for contrast in [false, true] {
        for saccade in [Intensity::L, Intensity::M, Intensity::H] {
            let mut styler = FSRXStyler::new(Intensity::M, contrast, saccade_copy(&saccade));
            for line in &lines {
                let out = styler.style_line(line);
                assert_eq!(strip(&out), *line);
            }
        }
    }
}

fn saccade_copy(i: &Intensity) -> Intensity {
    match i {
        Intensity::L => Intensity::L,
        Intensity::M => Intensity::M,
        Intensity::H => Intensity::H,
    }
}
