use oid_or_cloid::cloid_hex::{hex_string_to_uuid, strip_hex_prefix, uuid_to_hex_string};
use uuid::Uuid;

const SAMPLE: u128 = 0x123e4567e89b12d3a456426614174000;

#[test]
fn every_digit_is_written_in_lower_case_and_in_order() {
    assert_eq!(
        uuid_to_hex_string(0x0123456789abcdeffedcba9876543210),
        "0x0123456789abcdeffedcba9876543210"
    );
    assert_eq!(
        uuid_to_hex_string(u128::MAX),
        "0xffffffffffffffffffffffffffffffff"
    );
    assert_eq!(uuid_to_hex_string(0), "0x00000000000000000000000000000000");
    assert_eq!(uuid_to_hex_string(1), "0x00000000000000000000000000000001");
    assert_eq!(
        uuid_to_hex_string(1u128 << 127),
        "0x80000000000000000000000000000000"
    );
    assert_eq!(uuid_to_hex_string(0xa0), "0x000000000000000000000000000000a0");
}

#[test]
fn written_digits_are_those_of_the_simple_form() {
    let tags: Vec<u128> = vec![0, 1, 15, 16, 255, SAMPLE, u128::MAX, u128::MAX - 1, 1u128 << 64];
    for bits in tags {
        let simple = Uuid::from_u128(bits).simple().to_string();
        assert_eq!(uuid_to_hex_string(bits), format!("0x{}", simple));
    }
}

#[test]
fn prefix_is_stripped_once() {
    assert_eq!(strip_hex_prefix("0xabc"), "abc");
    assert_eq!(strip_hex_prefix("abc"), "abc");
    assert_eq!(strip_hex_prefix("0x0xabc"), "0xabc");
    assert_eq!(strip_hex_prefix("0x"), "");
}

#[test]
fn what_is_not_the_prefix_stays() {
    assert_eq!(strip_hex_prefix(""), "");
    assert_eq!(strip_hex_prefix("0"), "0");
    assert_eq!(strip_hex_prefix("x0abc"), "x0abc");
    assert_eq!(strip_hex_prefix("0Xabc"), "0Xabc");
    assert_eq!(strip_hex_prefix(" 0xabc"), " 0xabc");
    assert_eq!(strip_hex_prefix("1x"), "1x");
}

#[test]
fn prefix_is_stripped_before_characters_of_any_width() {
    assert_eq!(strip_hex_prefix("0x\u{e9}t\u{e9}"), "\u{e9}t\u{e9}");
    assert_eq!(strip_hex_prefix("\u{e9}0x"), "\u{e9}0x");
    assert_eq!(strip_hex_prefix("0\u{d7}12"), "0\u{d7}12");
}

#[test]
fn all_four_forms_are_read() {
    assert_eq!(
        hex_string_to_uuid("123e4567e89b12d3a456426614174000"),
        Ok(SAMPLE)
    );
    assert_eq!(
        hex_string_to_uuid("123e4567-e89b-12d3-a456-426614174000"),
        Ok(SAMPLE)
    );
    assert_eq!(
        hex_string_to_uuid("{123e4567-e89b-12d3-a456-426614174000}"),
        Ok(SAMPLE)
    );
    assert_eq!(
        hex_string_to_uuid("urn:uuid:123e4567-e89b-12d3-a456-426614174000"),
        Ok(SAMPLE)
    );
}

#[test]
fn digits_and_urn_letters_may_be_capitals() {
    assert_eq!(
        hex_string_to_uuid("123E4567E89B12D3A456426614174000"),
        Ok(SAMPLE)
    );
    assert_eq!(
        hex_string_to_uuid("123e4567-E89B-12d3-A456-426614174000"),
        Ok(SAMPLE)
    );
    assert_eq!(
        hex_string_to_uuid("URN:UUID:123e4567-e89b-12d3-a456-426614174000"),
        Ok(SAMPLE)
    );
    assert_eq!(
        hex_string_to_uuid("Urn:uUid:123e4567-e89b-12d3-a456-426614174000"),
        Ok(SAMPLE)
    );
    assert_eq!(
        hex_string_to_uuid("0xABCDEFabcdefABCDEFabcdefABCDEFab"),
        Ok(0xabcdefabcdefabcdefabcdefabcdefab)
    );
}

#[test]
fn first_digit_is_the_highest() {
    assert_eq!(
        hex_string_to_uuid("f0000000000000000000000000000001"),
        Ok((0xfu128 << 124) + 1)
    );
    assert_eq!(
        hex_string_to_uuid("00000000-0000-0000-0000-0000000000ff"),
        Ok(255)
    );
    assert_eq!(
        hex_string_to_uuid("ffffffff-ffff-ffff-ffff-ffffffffffff"),
        Ok(u128::MAX)
    );
}

#[test]
fn reading_agrees_with_the_parser_on_what_is_read() {
    let texts: Vec<&str> = vec![
        "123e4567e89b12d3a456426614174000",
        "123e4567-e89b-12d3-a456-426614174000",
        "{123e4567-e89b-12d3-a456-426614174000}",
        "urn:uuid:123e4567-e89b-12d3-a456-426614174000",
        "00000000000000000000000000000000",
        "FFFFFFFF-FFFF-FFFF-FFFF-FFFFFFFFFFFF",
    ];
    for text in texts {
        let parsed = Uuid::parse_str(text).unwrap();
        assert_eq!(hex_string_to_uuid(text), Ok(parsed.as_u128()));
    }
}

#[test]
fn texts_in_no_form_are_refused_with_the_parser_complaint() {
    let texts: Vec<&str> = vec![
        "",
        "0",
        "x0",
        "not-a-uuid",
        "12345",
        "123e4567e89b12d3a45642661417400",
        "123e4567e89b12d3a4564266141740000",
        "123e4567e89b12d3a45642661417400g",
        "123e4567-e89b-12d3-a456-42661417400",
        "123e4567-e89b-12d3-a456-4266141740000",
        "123e4567e-89b-12d3-a456-426614174000",
        "123e4567-e89b-12d3-a456_426614174000",
        "123e4567-e89b-12d3-a456-42661417400g",
        "-23e4567-e89b-12d3-a456-426614174000",
        "{123e4567e89b12d3a456426614174000}",
        "{123e4567-e89b-12d3-a456-426614174000",
        "123e4567-e89b-12d3-a456-426614174000}",
        "(123e4567-e89b-12d3-a456-426614174000)",
        "{123e4567-e89b-12d3-a456-426614174000} ",
        "urn:uuid:123e4567e89b12d3a456426614174000",
        "urn:uuid:{123e4567-e89b-12d3-a456-426614174000}",
        "urn-uuid-123e4567-e89b-12d3-a456-426614174000",
        "urn:guid:123e4567-e89b-12d3-a456-426614174000",
        "uuid:urn:123e4567-e89b-12d3-a456-426614174000",
        " 123e4567e89b12d3a456426614174000",
        "123e4567e89b12d3a456426614174000 ",
        "123e4567 e89b 12d3 a456 426614174000",
        "+23e4567e89b12d3a456426614174000",
        "123e4567e89b12d3a45642661417400\u{e9}",
        "\u{e9}23e4567e89b12d3a45642661417400",
        "123e4567e89b12d3a4564266141740\u{e9}",
        "123e4567-e89b-12d3-a456-4266141740\u{e9}",
        "\u{ff11}23e4567e89b12d3a456426614174000",
        "123e4567\u{2010}e89b\u{2010}12d3\u{2010}a456\u{2010}426614174000",
    ];
    for text in texts {
        let complaint = Uuid::parse_str(text).unwrap_err().to_string();
        assert_eq!(hex_string_to_uuid(text), Err(complaint));
    }
}

#[test]
fn prefix_alone_leaves_the_empty_text_to_complain_of() {
    let complaint = Uuid::parse_str("").unwrap_err().to_string();
    assert_eq!(hex_string_to_uuid("0x"), Err(complaint));
}

#[test]
fn capital_prefix_is_part_of_the_text() {
    let complaint = Uuid::parse_str("0X123e4567e89b12d3a456426614174000")
        .unwrap_err()
        .to_string();
    assert_eq!(
        hex_string_to_uuid("0X123e4567e89b12d3a456426614174000"),
        Err(complaint)
    );
}
