use botz::numbers::{parse_i32, parse_u32, parse_u8, parse_usize, parse_within};
use botz::scene::{read_scene, seek, LinkSeed, Number, Quantity, VertexSeed};

fn i32_of(text: &str) -> Option<i32> {
    parse_i32(text.as_bytes(), 0, text.len())
}

fn number(quantity: Quantity, index: usize, start: usize, end: usize) -> Number {
    Number { quantity, index, start, end }
}

#[test]
fn integers_parse_like_the_standard_library() {
    for text in [
        "0", "7", "42", "-1", "+1", "-0", "+0", "007", "2147483647", "2147483648", "-2147483648",
        "-2147483649", "", "+", "-", "1 ", " 1", "1.0", "--1", "+-1", "12a", "a12", "99999999999",
        "0000000000000000000000012",
    ] {
        assert_eq!(i32_of(text), text.parse::<i32>().ok());
        assert_eq!(parse_u32(text.as_bytes(), 0, text.len()), text.parse::<u32>().ok());
        assert_eq!(parse_u8(text.as_bytes(), 0, text.len()), text.parse::<u8>().ok());
        assert_eq!(parse_usize(text.as_bytes(), 0, text.len()), text.parse::<usize>().ok());
    }
}

#[test]
fn integers_at_the_edges_of_their_types() {
    assert_eq!(i32_of("2147483647"), Some(i32::MAX));
    assert_eq!(i32_of("-2147483648"), Some(i32::MIN));
    assert_eq!(i32_of("2147483648"), None);
    assert_eq!(parse_u8(b"255", 0, 3), Some(255));
    assert_eq!(parse_u8(b"256", 0, 3), None);
    assert_eq!(parse_u8(b"-0", 0, 2), None);
    assert_eq!(parse_u32(b"4294967295", 0, 10), Some(u32::MAX));
    assert_eq!(parse_u32(b"4294967296", 0, 10), None);
    let most = usize::MAX.to_string();
    assert_eq!(parse_usize(most.as_bytes(), 0, most.len()), Some(usize::MAX));
    let more = format!("{}0", most);
    assert_eq!(parse_usize(more.as_bytes(), 0, more.len()), None);
}

#[test]
fn integers_are_read_from_the_middle_of_a_text() {
    let text = b"xx-15yy";
    assert_eq!(parse_i32(text, 2, 5), Some(-15));
    assert_eq!(parse_i32(text, 3, 5), Some(15));
    assert_eq!(parse_i32(text, 2, 6), None);
    assert_eq!(parse_i32(text, 4, 4), None);
}

#[test]
fn parse_within_respects_both_bounds() {
    assert_eq!(parse_within(b"10", 0, 2, -5, 10), Some(10));
    assert_eq!(parse_within(b"11", 0, 2, -5, 10), None);
    assert_eq!(parse_within(b"-5", 0, 2, -5, 10), Some(-5));
    assert_eq!(parse_within(b"-6", 0, 2, -5, 10), None);
    assert_eq!(parse_within(b"5", 0, 1, 0, 0), None);
    assert_eq!(parse_within(b"0", 0, 1, 0, 0), Some(0));
    assert_eq!(parse_within(b"-0", 0, 2, 0, 10), None);
}

#[test]
fn seek_finds_the_first_separator() {
    let text = b"ab;cd;;e";
    assert_eq!(seek(text, 0, text.len(), b';'), 2);
    assert_eq!(seek(text, 3, text.len(), b';'), 5);
    assert_eq!(seek(text, 6, text.len(), b';'), 6);
    assert_eq!(seek(text, 7, text.len(), b';'), 8);
    assert_eq!(seek(text, 0, 2, b';'), 2);
    assert_eq!(seek(text, 8, 8, b';'), 8);
}

#[test]
fn empty_scene_says_nothing() {
    for text in ["", ";", ";;;"] {
        let scene = read_scene(text.as_bytes()).unwrap();
        assert_eq!(scene.clock_speed, None);
        assert_eq!(scene.mode, None);
        assert!(scene.vertices.is_empty());
        assert!(scene.links.is_empty());
        assert!(scene.numbers.is_empty());
    }
}

#[test]
fn environment_records_are_located() {
    let text = "G0.4;A0.01;F0.7;B0.4;W-1.5;T0.9;C-3;M1";
    let scene = read_scene(text.as_bytes()).unwrap();
    assert_eq!(scene.clock_speed, Some(-3));
    assert_eq!(scene.mode, Some(1));
    assert_eq!(
        scene.numbers,
        vec![
            number(Quantity::Gravity, 0, 1, 4),
            number(Quantity::Atmosphere, 0, 6, 10),
            number(Quantity::WallFriction, 0, 12, 15),
            number(Quantity::WallBounce, 0, 17, 20),
            number(Quantity::LeftWind, 0, 22, 26),
            number(Quantity::Tension, 0, 28, 31),
        ]
    );
    assert_eq!(&text[22..26], "-1.5");
}

#[test]
fn later_records_override_earlier_ones() {
    let scene = read_scene(b"C3;C-7;M0;M2").unwrap();
    assert_eq!(scene.clock_speed, Some(-7));
    assert_eq!(scene.mode, Some(2));
}

#[test]
fn vertex_record_gives_seed_and_numbers() {
    let text = "VX10.5|Y20|H1|U-2|R20|C0.5|P13";
    let scene = read_scene(text.as_bytes()).unwrap();
    assert_eq!(scene.vertices, vec![VertexSeed { radius: 20, phase: 13 }]);
    assert_eq!(
        scene.numbers,
        vec![
            number(Quantity::X, 0, 2, 6),
            number(Quantity::Y, 0, 8, 10),
            number(Quantity::VelocityX, 0, 12, 13),
            number(Quantity::VelocityY, 0, 15, 17),
            number(Quantity::Spin, 0, 23, 26),
        ]
    );
    assert_eq!(&text[2..6], "10.5");
    assert_eq!(&text[23..26], "0.5");
}

#[test]
fn link_record_gives_seed_and_numbers() {
    let text = "V;V;LA1|B2|L50|T0.9|S40|P0|N2.5|E49|M180";
    let scene = read_scene(text.as_bytes()).unwrap();
    assert_eq!(scene.vertices.len(), 2);
    assert_eq!(
        scene.links,
        vec![LinkSeed { src: 0, dest: 1, push_span: 40, push_timing: 180 }]
    );
    assert_eq!(
        scene.numbers,
        vec![
            number(Quantity::RestLength, 0, 12, 14),
            number(Quantity::LinkTension, 0, 16, 19),
            number(Quantity::Push, 0, 25, 26),
            number(Quantity::PushStrength, 0, 28, 31),
            number(Quantity::LastLength, 0, 33, 35),
        ]
    );
    assert_eq!(&text[12..14], "50");
    assert_eq!(&text[28..31], "2.5");
}

#[test]
fn numbers_name_the_record_they_belong_to() {
    let scene = read_scene(b"VX1;VX2|Y3;LL4;LL5;VX6").unwrap();
    let owners: Vec<(Quantity, usize)> =
        scene.numbers.iter().map(|n| (n.quantity, n.index)).collect();
    assert_eq!(
        owners,
        vec![
            (Quantity::X, 0),
            (Quantity::X, 1),
            (Quantity::Y, 1),
            (Quantity::RestLength, 0),
            (Quantity::RestLength, 1),
            (Quantity::X, 2),
        ]
    );
    assert_eq!(scene.vertices.len(), 3);
    assert_eq!(scene.links.len(), 2);
}

#[test]
fn the_same_letter_means_different_things_by_record() {
    // T is the default tension at the top, the tension of a link inside one;
    // C is the clock speed at the top, the spin inside a vertex; P is the
    // phase of a vertex and the push of a link.
    let scene = read_scene(b"T1;C5;VC2|P9;LT3|P40|M7;M1").unwrap();
    assert_eq!(scene.clock_speed, Some(5));
    assert_eq!(scene.mode, Some(1));
    assert_eq!(scene.vertices, vec![VertexSeed { radius: 0, phase: 9 }]);
    assert_eq!(scene.links, vec![LinkSeed { src: 0, dest: 0, push_span: 0, push_timing: 7 }]);
    let kinds: Vec<Quantity> = scene.numbers.iter().map(|n| n.quantity).collect();
    assert_eq!(
        kinds,
        vec![Quantity::Tension, Quantity::Spin, Quantity::LinkTension, Quantity::Push]
    );
}

#[test]
fn unknown_tags_and_empty_fields_are_skipped() {
    let scene = read_scene(b"Zjunk;;V||Qx|R5||;Kmore;L|Zq|S3|").unwrap();
    assert_eq!(scene.vertices, vec![VertexSeed { radius: 5, phase: 0 }]);
    assert_eq!(scene.links, vec![LinkSeed { src: 0, dest: 0, push_span: 3, push_timing: 0 }]);
    assert!(scene.numbers.is_empty());
}

#[test]
fn decimal_fractions_are_not_judged() {
    let scene = read_scene(b"Gnot a number;VXalso not").unwrap();
    assert_eq!(
        scene.numbers,
        vec![number(Quantity::Gravity, 0, 1, 13), number(Quantity::X, 0, 16, 24)]
    );
}

#[test]
fn malformed_whole_numbers_spoil_the_scene() {
    for text in [
        "C", "Cx", "C1.5", "C99999999999", "M256", "M-1", "M", "VR-1", "VRx", "VR4294967296",
        "VP256", "VP", "LA0", "LB0", "LA", "LAx", "LA-1", "LS1e3", "LM", "LS2147483648",
        "VX1;VY2;C;VX3", "G1;V|R|",
    ] {
        assert!(read_scene(text.as_bytes()).is_none(), "{}", text);
    }
}

#[test]
fn link_endpoints_count_from_one() {
    let scene = read_scene(b"LA1|B1;LA12|B7").unwrap();
    assert_eq!(
        scene.links,
        vec![
            LinkSeed { src: 0, dest: 0, push_span: 0, push_timing: 0 },
            LinkSeed { src: 11, dest: 6, push_span: 0, push_timing: 0 },
        ]
    );
}

#[test]
fn text_with_wide_characters_is_split_on_bytes() {
    let text = "Zé;VXü|R3;é";
    let scene = read_scene(text.as_bytes()).unwrap();
    assert_eq!(scene.vertices, vec![VertexSeed { radius: 3, phase: 0 }]);
    assert_eq!(scene.numbers.len(), 1);
    assert_eq!(&text[scene.numbers[0].start..scene.numbers[0].end], "ü");
}
