use pdf_browser::{display_fit, image_sequence_of, inline_image, push_decimal, Apply, Fit, RenderedPage};

#[test]
fn landscape_page_on_portrait_terminal_fits_width() {
    assert_eq!(display_fit(200, 100, 40, 80), Fit::Width(38));
}

#[test]
fn portrait_page_on_landscape_terminal_fits_height() {
    assert_eq!(display_fit(100, 200, 80, 40), Fit::Height(38));
}

#[test]
fn landscape_page_on_landscape_terminal_fits_width() {
    assert_eq!(display_fit(200, 100, 80, 40), Fit::Width(78));
}

#[test]
fn portrait_page_on_portrait_terminal_fits_width() {
    assert_eq!(display_fit(100, 200, 40, 80), Fit::Width(38));
}

#[test]
fn square_shapes_count_as_landscape() {
    assert_eq!(display_fit(100, 100, 50, 50), Fit::Width(48));
    assert_eq!(display_fit(99, 100, 50, 50), Fit::Height(48));
}

#[test]
fn margin_never_underflows() {
    assert_eq!(display_fit(100, 200, 1, 1), Fit::Height(0));
    assert_eq!(display_fit(200, 100, 2, 1), Fit::Width(0));
}

#[test]
fn decimal_digits() {
    let mut s = String::from("n=");
    push_decimal(&mut s, 0);
    assert_eq!(s, "n=0");
    let mut s = String::new();
    push_decimal(&mut s, 1234);
    assert_eq!(s, "1234");
    let mut s = String::new();
    push_decimal(&mut s, 10);
    assert_eq!(s, "10");
    let mut s = String::new();
    push_decimal(&mut s, u64::MAX);
    assert_eq!(s, "18446744073709551615");
}

#[test]
fn escape_sequence_by_width() {
    assert_eq!(
        image_sequence_of(5, Fit::Width(78), "aGVsbG8="),
        "\x1b]1337;File=inline=1;preserveAspectRatio=1;size=5;width=78:aGVsbG8=\x07\n"
    );
}

#[test]
fn escape_sequence_by_height() {
    assert_eq!(
        image_sequence_of(120, Fit::Height(0), ""),
        "\x1b]1337;File=inline=1;preserveAspectRatio=1;size=120;height=0:\x07\n"
    );
}

#[test]
fn inline_image_encodes_base64() {
    let data = b"hello".to_vec();
    assert_eq!(
        inline_image(&data, Fit::Height(22)),
        "\x1b]1337;File=inline=1;preserveAspectRatio=1;size=5;height=22:aGVsbG8=\x07\n"
    );
    let empty: Vec<u8> = vec![];
    assert_eq!(
        inline_image(&empty, Fit::Width(1)),
        "\x1b]1337;File=inline=1;preserveAspectRatio=1;size=0;width=1:\x07\n"
    );
}

#[test]
fn page_display_uses_sizing_rule() {
    let portrait = RenderedPage { data: vec![0xff, 0x00], width: 100, height: 200 };
    assert_eq!(
        portrait.display(80, 24),
        "\x1b]1337;File=inline=1;preserveAspectRatio=1;size=2;height=22:/wA=\x07\n"
    );
    let landscape = RenderedPage { data: vec![0xff, 0x00], width: 200, height: 100 };
    assert_eq!(
        landscape.display(80, 24),
        "\x1b]1337;File=inline=1;preserveAspectRatio=1;size=2;width=78:/wA=\x07\n"
    );
}

#[test]
fn apply_chains_closures() {
    assert_eq!(3u32.apply(|x| x * 2), 6);
    assert_eq!(String::from("abc").apply_ref(|s: &String| s.len()), 3);
    let mut v = vec![1u8];
    let n = v.apply_mut(|v: &mut Vec<u8>| {
        v.push(2);
        v.len()
    });
    assert_eq!(n, 2);
    assert_eq!(v, vec![1, 2]);
}
