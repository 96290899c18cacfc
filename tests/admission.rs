use pvalve::admission::{
    admitted_end, annotate, annotate_bytes, annotate_lines, annotate_nulls, buffer_cost,
    count_bytes, count_lines, count_nulls,
};
use pvalve::unit::Unit;

#[test]
fn annotate_finds_boundaries_of_each_unit() {
    let buf = b"ab\n\0c\n";
    assert_eq!(annotate_bytes(buf), vec![0, 1, 2, 3, 4, 5]);
    assert_eq!(annotate_lines(buf), vec![2, 5]);
    assert_eq!(annotate_nulls(buf), vec![3]);
    assert_eq!(annotate(b"", Unit::Byte), Vec::<usize>::new());
}

#[test]
fn counts_match_annotations() {
    let buf = b"a\nb\n\0\0\0";
    assert_eq!(count_bytes(buf), 7);
    assert_eq!(count_lines(buf), 2);
    assert_eq!(count_nulls(buf), 3);
}

#[test]
fn two_tokens_admit_two_lines() {
    let buf = b"a\nb\nc\nd\n";
    let points = annotate(buf, Unit::Line);
    assert_eq!(buffer_cost(points.len()), 4);
    assert_eq!(admitted_end(buf, Unit::Line, &points, 2), 4);
    assert_eq!(&buf[..admitted_end(buf, Unit::Line, &points, 2)], b"a\nb\n");
}

#[test]
fn admitted_prefix_ends_after_a_boundary() {
    let buf = b"one\0two\0three";
    let points = annotate(buf, Unit::Null);
    for granted in 1..=points.len() as u32 {
        let end = admitted_end(buf, Unit::Null, &points, granted);
        assert_eq!(buf[end - 1], 0);
        assert_eq!(count_nulls(&buf[..end]), granted as usize);
    }
}

#[test]
fn buffer_without_boundary_passes_whole() {
    let buf = b"no line feed here";
    let points = annotate(buf, Unit::Line);
    assert_eq!(buffer_cost(points.len()), 0);
    assert_eq!(admitted_end(buf, Unit::Line, &points, 0), buf.len());
}

#[test]
fn bytes_admit_one_byte_per_token() {
    let buf = [7u8; 250];
    let points = annotate(&buf, Unit::Byte);
    assert_eq!(admitted_end(&buf, Unit::Byte, &points, 100), 100);
}

#[test]
fn cost_is_capped_at_u32_max() {
    assert_eq!(buffer_cost(usize::MAX), u32::MAX);
    assert_eq!(buffer_cost(3), 3);
}
