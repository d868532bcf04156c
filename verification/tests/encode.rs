use lyricsrs::encode::{encode_component, rewrite_spaces};
use lyricsrs::text::{chars_of, decimal_string, string_of};

#[test]
fn unreserved_bytes_stay() {
    assert_eq!(
        encode_component("AZaz09-._~"),
        "AZaz09-._~"
    );
}

#[test]
fn space_becomes_plus() {
    assert_eq!(encode_component("Taylor Swift"), "Taylor+Swift");
    assert_eq!(encode_component("  "), "++");
}

#[test]
fn reserved_bytes_are_percent_encoded_in_upper_case() {
    assert_eq!(encode_component(":"), "%3A");
    assert_eq!(encode_component("+"), "%2B");
    assert_eq!(encode_component("%"), "%25");
    assert_eq!(encode_component("&=?/"), "%26%3D%3F%2F");
    assert_eq!(encode_component("(Ft. Post Malone)"), "%28Ft.+Post+Malone%29");
}

#[test]
fn a_literal_percent_twenty_is_not_a_space() {
    assert_eq!(encode_component("%20"), "%2520");
    assert_eq!(encode_component("100% 20"), "100%25+20");
}

#[test]
fn text_outside_ascii_is_encoded_bytewise() {
    assert_eq!(encode_component("Beyoncé"), "Beyonc%C3%A9");
    assert_eq!(encode_component("夜"), "%E5%A4%9C");
}

#[test]
fn empty_component() {
    assert_eq!(encode_component(""), "");
}

#[test]
fn album_of_the_fixture() {
    assert_eq!(
        encode_component("THE TORTURED POETS DEPARTMENT: THE ANTHOLOGY"),
        "THE+TORTURED+POETS+DEPARTMENT%3A+THE+ANTHOLOGY"
    );
}

#[test]
fn rewrite_replaces_each_encoded_space() {
    assert_eq!(rewrite_spaces("a%20b%20c"), "a+b+c");
    assert_eq!(rewrite_spaces("%20"), "+");
    assert_eq!(rewrite_spaces("%20%20"), "++");
    assert_eq!(rewrite_spaces(""), "");
}

#[test]
fn rewrite_leaves_other_text() {
    assert_eq!(rewrite_spaces("a b"), "a b");
    assert_eq!(rewrite_spaces("%2"), "%2");
    assert_eq!(rewrite_spaces("%21%2"), "%21%2");
    assert_eq!(rewrite_spaces("%%20"), "%+");
    assert_eq!(rewrite_spaces("%2%20"), "%2+");
    assert_eq!(rewrite_spaces("http://lrclib.net/api/get?x=1"), "http://lrclib.net/api/get?x=1");
}

#[test]
fn decimal_notation() {
    assert_eq!(decimal_string(0), "0");
    assert_eq!(decimal_string(7), "7");
    assert_eq!(decimal_string(10), "10");
    assert_eq!(decimal_string(215), "215");
    assert_eq!(decimal_string(1000), "1000");
    assert_eq!(decimal_string(u64::MAX), "18446744073709551615");
}

#[test]
fn chars_and_back() {
    assert_eq!(chars_of("añ夜"), vec!['a', 'ñ', '夜']);
    assert_eq!(chars_of(""), Vec::<char>::new());
    assert_eq!(string_of(&vec!['a', 'ñ', '夜']), "añ夜");
    assert_eq!(string_of(&Vec::new()), "");
}
