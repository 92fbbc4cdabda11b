use jot_sync::timestamp::extract_timestamp_from_etag;
use jot_sync::timestamp::find_last_modified_in_xml;
use jot_sync::timestamp::format_timestamp;
use jot_sync::timestamp::parse_http_date;
use jot_sync::timestamp::seconds_to_timestamp;
use jot_sync::timestamp::timestamp_from_headers;

#[test]
fn http_date_is_read_as_seconds_since_epoch() {
    assert_eq!(parse_http_date("Wed, 18 Feb 2015 23:16:09 GMT"), Some(1424301369));
    assert_eq!(parse_http_date("Mon, 01 Jan 2024 00:00:00 GMT"), Some(1704067200));
    assert_eq!(parse_http_date("Thu, 01 Jan 1970 00:00:00 +0000"), Some(0));
}

#[test]
fn http_date_honours_the_offset() {
    assert_eq!(parse_http_date("Tue, 1 Jul 2003 10:52:37 +0200"), Some(1057049557));
}

#[test]
fn http_date_rejects_other_text() {
    assert_eq!(parse_http_date(""), None);
    assert_eq!(parse_http_date("yesterday"), None);
    assert_eq!(parse_http_date("2015-02-18T23:16:09Z"), None);
}

#[test]
fn date_before_epoch_wraps_around() {
    assert_eq!(parse_http_date("Wed, 31 Dec 1969 23:59:59 GMT"), Some(u64::MAX));
}

#[test]
fn seconds_become_unsigned() {
    assert_eq!(seconds_to_timestamp(0), 0);
    assert_eq!(seconds_to_timestamp(1424301369), 1424301369);
    assert_eq!(seconds_to_timestamp(i64::MAX), i64::MAX as u64);
    assert_eq!(seconds_to_timestamp(-1), u64::MAX);
    assert_eq!(seconds_to_timestamp(-2), u64::MAX - 1);
    assert_eq!(seconds_to_timestamp(i64::MIN), 1u64 << 63);
}

#[test]
fn etag_with_ten_digits_gives_a_timestamp() {
    assert_eq!(extract_timestamp_from_etag("1700000000"), Some(1700000000));
    assert_eq!(extract_timestamp_from_etag("\"1700000000\""), Some(1700000000));
}

#[test]
fn etag_digits_are_gathered_across_other_characters() {
    assert_eq!(extract_timestamp_from_etag("\"a1b7c0d0e0f0g0h0i0j0\""), Some(1700000000));
    assert_eq!(extract_timestamp_from_etag("17-0000-0000"), Some(1700000000));
}

#[test]
fn etag_uses_only_the_first_ten_digits() {
    assert_eq!(extract_timestamp_from_etag("170000000099999"), Some(1700000000));
    assert_eq!(extract_timestamp_from_etag("0000000001234"), Some(1));
}

#[test]
fn etag_with_fewer_than_ten_digits_gives_nothing() {
    assert_eq!(extract_timestamp_from_etag(""), None);
    assert_eq!(extract_timestamp_from_etag("abcdef"), None);
    assert_eq!(extract_timestamp_from_etag("123456789"), None);
    assert_eq!(extract_timestamp_from_etag("\"5f3a-1234567x\""), None);
}

#[test]
fn etag_ignores_digits_outside_ascii() {
    assert_eq!(extract_timestamp_from_etag("\u{0661}\u{0662}\u{0663}123456789"), None);
}

#[test]
fn xml_with_prefixed_tag_is_read() {
    let xml = "<d:multistatus><d:response><d:propstat><d:prop>\
               <d:getlastmodified>Wed, 18 Feb 2015 23:16:09 GMT</d:getlastmodified>\
               </d:prop></d:propstat></d:response></d:multistatus>";
    assert_eq!(find_last_modified_in_xml(xml, 7), Some(1424301369));
}

#[test]
fn xml_with_each_known_spelling_is_read() {
    let date = "Mon, 01 Jan 2024 00:00:00 GMT";
    for (open, close) in [
        ("<d:getlastmodified>", "</d:getlastmodified>"),
        ("<getlastmodified>", "</getlastmodified>"),
        ("<lastmodified>", "</lastmodified>"),
        ("<ns0:getlastmodified>", "</ns0:getlastmodified>"),
        ("<DAV:getlastmodified>", "</DAV:getlastmodified>"),
    ] {
        let xml = format!("<prop>{}{}{}</prop>", open, date, close);
        assert_eq!(find_last_modified_in_xml(&xml, 7), Some(1704067200));
    }
}

#[test]
fn xml_first_spelling_in_the_list_wins() {
    let xml = "<getlastmodified>Mon, 01 Jan 2024 00:00:00 GMT</getlastmodified>\
               <d:getlastmodified>Wed, 18 Feb 2015 23:16:09 GMT</d:getlastmodified>";
    assert_eq!(find_last_modified_in_xml(xml, 7), Some(1424301369));
}

#[test]
fn xml_tag_without_its_end_is_passed_over() {
    let xml = "<d:getlastmodified>Wed, 18 Feb 2015 23:16:09 GMT\
               <lastmodified>Mon, 01 Jan 2024 00:00:00 GMT</lastmodified>";
    assert_eq!(find_last_modified_in_xml(xml, 7), Some(1704067200));
}

#[test]
fn xml_with_a_text_that_is_no_date_falls_back_to_the_etag() {
    let xml = "<d:getlastmodified>not a date</d:getlastmodified>\
               <d:getetag>\"1700000000\"</d:getetag>";
    assert_eq!(find_last_modified_in_xml(xml, 7), Some(1700000000));
}

#[test]
fn xml_with_a_text_that_is_no_date_and_no_etag_gives_the_current_time() {
    let xml = "<d:getlastmodified>not a date</d:getlastmodified>";
    assert_eq!(find_last_modified_in_xml(xml, 7), Some(7));
    let short_tag = "<d:getlastmodified></d:getlastmodified><d:getetag>\"abc\"</d:getetag>";
    assert_eq!(find_last_modified_in_xml(short_tag, 8), Some(8));
}

#[test]
fn xml_first_element_decides_even_where_a_later_one_holds_a_date() {
    let xml = "<d:getlastmodified>not a date</d:getlastmodified>\
               <lastmodified>Mon, 01 Jan 2024 00:00:00 GMT</lastmodified>";
    assert_eq!(find_last_modified_in_xml(xml, 7), Some(7));
}

#[test]
fn resolver_gives_a_time_for_every_text() {
    for xml in [
        "",
        "<",
        "<d:getlastmodified>",
        "</d:getlastmodified><d:getlastmodified>",
        "<d:getlastmodified>\u{e9}\u{2014}</d:getlastmodified>",
        "<d:getetag>",
        "\u{1F600}<d:getetag>\u{0661}\u{0662}</d:getetag>",
        "<d:getlastmodified>99999999999999999999</d:getlastmodified>",
    ] {
        assert_eq!(find_last_modified_in_xml(xml, 4242), Some(4242), "{:?}", xml);
    }
}

#[test]
fn xml_falls_back_to_the_etag() {
    let xml = "<d:prop><d:getetag>\"1700000000abc\"</d:getetag></d:prop>";
    assert_eq!(find_last_modified_in_xml(xml, 7), Some(1700000000));
}

#[test]
fn xml_falls_back_to_the_current_time() {
    assert_eq!(find_last_modified_in_xml("", 1234), Some(1234));
    assert_eq!(find_last_modified_in_xml("<d:prop></d:prop>", 99), Some(99));
    let short_tag = "<d:getetag>\"abc123\"</d:getetag>";
    assert_eq!(find_last_modified_in_xml(short_tag, 55), Some(55));
}

#[test]
fn headers_prefer_the_date() {
    assert_eq!(
        timestamp_from_headers(Some("Wed, 18 Feb 2015 23:16:09 GMT"), Some("\"1700000000\"")),
        Some(1424301369)
    );
}

#[test]
fn headers_fall_back_to_the_etag() {
    assert_eq!(timestamp_from_headers(None, Some("\"1700000000\"")), Some(1700000000));
    assert_eq!(timestamp_from_headers(Some("garbage"), Some("\"1700000000\"")), Some(1700000000));
}

#[test]
fn headers_without_a_time_give_nothing() {
    assert_eq!(timestamp_from_headers(None, None), None);
    assert_eq!(timestamp_from_headers(Some("garbage"), None), None);
    assert_eq!(timestamp_from_headers(None, Some("\"abc\"")), None);
}

#[test]
fn timestamp_is_rendered_with_days_and_time() {
    assert_eq!(format_timestamp(0), "0 days, 00:00 (timestamp: 0)");
    assert_eq!(format_timestamp(3661), "0 days, 01:01 (timestamp: 3661)");
    assert_eq!(format_timestamp(1700000000), "19675 days, 22:13 (timestamp: 1700000000)");
}

#[test]
fn largest_timestamp_is_rendered() {
    assert_eq!(
        format_timestamp(u64::MAX),
        format!(
            "{} days, {:02}:{:02} (timestamp: {})",
            u64::MAX / 86400,
            (u64::MAX / 3600) % 24,
            (u64::MAX / 60) % 60,
            u64::MAX
        )
    );
}
