use jellyfin_rpc::client::Client;
use jellyfin_rpc::text::clamp_text;

#[test]
fn sanitize_collapses_adjacent_separators() {
    assert_eq!(Client::sanitize_display_format("a {sep}{sep} b"), "a {sep} b");
}

#[test]
fn sanitize_collapses_spaced_separators() {
    assert_eq!(Client::sanitize_display_format("a {sep} {sep} b"), "a {sep} b");
}

#[test]
fn sanitize_collapses_three_separators() {
    assert_eq!(Client::sanitize_display_format("a {sep}{sep}{sep} b"), "a {sep} b");
    assert_eq!(Client::sanitize_display_format("a {sep} {sep} {sep} b"), "a {sep} b");
}

#[test]
fn sanitize_is_idempotent_on_samples() {
    let samples = [
        "  a   b  ",
        "{sep}{sep}x{sep}",
        "{sep} {sep} {sep}",
        "a {sep}{sep} b {sep}",
        "{sep}",
        "",
        "plain text",
        "{ s e p }{sep}{sep}",
    ];
    for s in samples {
        let once = Client::sanitize_display_format(s);
        let twice = Client::sanitize_display_format(&once);
        assert_eq!(once, twice);
    }
}

#[test]
fn sanitize_strips_leading_separator() {
    assert_eq!(Client::sanitize_display_format("{sep} X"), "X");
}

#[test]
fn sanitize_strips_trailing_separator() {
    assert_eq!(Client::sanitize_display_format("X {sep}"), "X");
}

#[test]
fn sanitize_strips_repeated_boundary_separators() {
    assert_eq!(Client::sanitize_display_format("{sep} {sep} X {sep}{sep}"), "X");
}

#[test]
fn sanitize_collapses_whitespace_runs() {
    assert_eq!(Client::sanitize_display_format("a \t\n  b   c"), "a b c");
}

#[test]
fn clamp_truncates_long_text_to_128_chars() {
    let long: Vec<char> = std::iter::repeat('x').take(200).collect();
    let clamped = clamp_text(&long);
    assert_eq!(clamped.len(), 128);
}

#[test]
fn clamp_keeps_exact_128_chars() {
    let text: Vec<char> = std::iter::repeat('y').take(128).collect();
    let clamped = clamp_text(&text);
    assert_eq!(clamped.len(), 128);
    assert_eq!(clamped, text);
}

#[test]
fn clamp_pads_short_text_to_exactly_3_chars() {
    let two = vec!['a', 'b'];
    let clamped = clamp_text(&two);
    assert_eq!(clamped.len(), 3);
    assert_eq!(&clamped[..2], &['a', 'b']);

    let zero: Vec<char> = Vec::new();
    assert_eq!(clamp_text(&zero).len(), 3);

    let one = vec!['\u{e9}'];
    let clamped = clamp_text(&one);
    assert_eq!(clamped.len(), 3);
    assert_eq!(clamped[0], '\u{e9}');
}

#[test]
fn clamp_leaves_middle_lengths_alone() {
    let text = vec!['a', 'b', 'c'];
    assert_eq!(clamp_text(&text), text);
}
