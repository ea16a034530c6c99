//! Styled lines.

use yap::line::{Alignment, Color, Line, Span, Style, BOLD, DIM, ITALIC, REVERSED};
use yap::line_clean::LineHelpers;
use yap::line_edit::{overlap_region, split_span_content, LineMutator};

fn red() -> Style {
    Style::new().fg(Color::Red)
}

fn line(parts: &[(&str, Style)]) -> Line {
    Line::from_spans(parts.iter().map(|(t, s)| Span::styled(t.to_string(), *s)).collect())
}

fn parts(line: &Line) -> Vec<(String, Style)> {
    line.spans.iter().map(|s| (s.content.clone(), s.style)).collect()
}

fn whole(line: &Line) -> String {
    line.spans.iter().map(|s| s.content.as_str()).collect()
}

#[test]
fn styles_are_laid_over_each_other() {
    let base = Style::new().fg(Color::Blue).add(BOLD);
    let over = Style::new().bg(Color::Red).add(ITALIC);
    let both = base.patch(over);
    assert_eq!(both.fg, Some(Color::Blue));
    assert_eq!(both.bg, Some(Color::Red));
    assert_eq!(both.add_modifier, BOLD | ITALIC);
    assert_eq!(Style::new().add(REVERSED).remove(REVERSED).add_modifier, 0);
    assert_eq!(Style::new().add(REVERSED).remove(REVERSED).sub_modifier, REVERSED);
}

#[test]
fn overlap_of_regions() {
    assert_eq!(overlap_region((0, 4), (2, 8)), (Some(2), Some(4)));
    assert_eq!(overlap_region((0, 2), (4, 8)), (None, None));
}

#[test]
fn span_content_is_split_in_three() {
    assert_eq!(split_span_content("hello", 1..3), ("h", "el", "lo"));
    assert_eq!(split_span_content("hello", 0..5), ("", "hello", ""));
}

#[test]
fn styling_acts_on_the_range() {
    let mut l = line(&[("hello ", Style::new()), ("world", Style::new())]);
    l.style_slice(4..8, red());
    assert_eq!(whole(&l), "hello world");
    let styled: String =
        l.spans.iter().filter(|s| s.style == red()).map(|s| s.content.as_str()).collect();
    assert_eq!(styled, "o wo");
}

#[test]
fn censoring_keeps_the_length() {
    let mut l = line(&[("secret text", Style::new())]);
    l.censor_slice(0..6, None);
    assert_eq!(whole(&l).chars().count(), 11);
    assert!(whole(&l).ends_with(" text"));
    assert!(!whole(&l).contains("secret"));
}

#[test]
fn removing_takes_the_range_out() {
    let mut l = line(&[("hello ", Style::new()), ("world", red())]);
    l.remove_slice(3..8);
    assert_eq!(whole(&l), "helrld");
}

#[test]
fn insertion_acts_at_the_index() {
    let mut l = line(&[("hello", Style::new())]);
    l.insert_slice(2, "XY".to_string(), Some(red()));
    assert_eq!(whole(&l), "heXYllo");
    assert_eq!(l.spans[1].style, red());
}

#[test]
fn cleaning_removes_control_characters() {
    let mut l = line(&[("a\u{7}b\u{1b}", Style::new())]);
    l.remove_unsavory_chars(false);
    assert_eq!(whole(&l), "ab");
    let mut l = line(&[("a\u{7}b", Style::new())]);
    l.remove_unsavory_chars(true);
    assert!(whole(&l).len() > 2);
    assert!(whole(&l).chars().all(|c| !c.is_control()));
}

#[test]
fn emptiness_and_style_of_a_line() {
    assert!(line(&[("", Style::new())]).is_empty());
    assert!(!line(&[("x", Style::new())]).is_empty());
    assert!(line(&[("x", red())]).is_styled());
    assert!(!line(&[("x", Style::new())]).is_styled());
}

#[test]
fn all_spans_take_a_style() {
    let l = line(&[("a", Style::new()), ("b", Style::new().add(DIM))]).all_spans_styled(red());
    assert_eq!(parts(&l), vec![("a".to_string(), red()), ("b".to_string(), red())]);
}

#[test]
fn spacing_adds_spaces_at_the_ends() {
    assert_eq!(whole(&line(&[("x", Style::new())]).spaced(2)), "  x  ");
    assert_eq!(whole(&line(&[("x", Style::new())]).spaced_l(1)), " x");
    assert_eq!(whole(&line(&[("x", Style::new())]).spaced_r(1)), "x ");
}

#[test]
fn copies_keep_everything() {
    let mut l = line(&[("x", red())]);
    l.alignment = Some(Alignment::Center);
    let copy = l.new_owned();
    assert_eq!(parts(&copy), parts(&l));
    assert_eq!(copy.alignment, Some(Alignment::Center));
    assert_eq!(l.borrowed_spans().len(), 1);
}
