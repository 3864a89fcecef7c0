use stockbot::document::without_member;
use stockbot::link::{checked_link, fundamentals_url, member_link, resolve_link, LinkError};

#[test]
fn the_fundamentals_of_a_symbol() {
    assert_eq!(fundamentals_url("AMD"), "https://api.robinhood.com/fundamentals/AMD/");
    assert_eq!(fundamentals_url("MSFT"), "https://api.robinhood.com/fundamentals/MSFT/");
    assert_eq!(fundamentals_url(""), "https://api.robinhood.com/fundamentals//");
}

#[test]
fn an_absent_field_is_missing() {
    assert_eq!(resolve_link(None), Err(LinkError::Missing));
}

#[test]
fn an_absolute_url_resolves() {
    assert_eq!(
        resolve_link(Some(String::from("https://api.robinhood.com/instruments/940fc3f5/"))),
        Ok(String::from("https://api.robinhood.com/instruments/940fc3f5/"))
    );
}

#[test]
fn a_url_is_handed_out_as_serialized() {
    assert_eq!(
        resolve_link(Some(String::from("HTTPS://API.Robinhood.COM"))),
        Ok(String::from("https://api.robinhood.com/"))
    );
    assert_eq!(
        resolve_link(Some(String::from("https://example.com/a b"))),
        Ok(String::from("https://example.com/a%20b"))
    );
}

#[test]
fn what_is_no_absolute_url_is_malformed() {
    assert_eq!(resolve_link(Some(String::new())), Err(LinkError::Malformed));
    assert_eq!(resolve_link(Some(String::from("not a url"))), Err(LinkError::Malformed));
    assert_eq!(resolve_link(Some(String::from("/instruments/1/"))), Err(LinkError::Malformed));
    assert_eq!(resolve_link(Some(String::from("https://"))), Err(LinkError::Malformed));
}

#[test]
fn a_refusal_of_any_kind_is_malformed() {
    assert_eq!(
        checked_link(Err(reqwest::UrlError::RelativeUrlWithoutBase)),
        Err(LinkError::Malformed)
    );
    assert_eq!(checked_link(Err(reqwest::UrlError::EmptyHost)), Err(LinkError::Malformed));
    assert_eq!(
        checked_link(Ok(String::from("https://example.com/"))),
        Ok(String::from("https://example.com/"))
    );
}

#[test]
fn a_link_is_read_from_a_document() {
    let doc = json::parse(
        "{\"instrument\":\"https://api.robinhood.com/instruments/1/\",\"bad\":\"nowhere\",\"n\":5,\"nested\":{\"instrument\":\"https://example.com/\"}}",
    )
    .unwrap();
    assert_eq!(
        member_link(&doc, "instrument"),
        Ok(String::from("https://api.robinhood.com/instruments/1/"))
    );
    assert_eq!(member_link(&doc, "bad"), Err(LinkError::Malformed));
    assert_eq!(member_link(&doc, "absent"), Err(LinkError::Missing));
    assert_eq!(member_link(&doc, "n"), Err(LinkError::Missing));
    assert_eq!(member_link(&doc, "nested"), Err(LinkError::Missing));
}

#[test]
fn a_value_that_is_no_object_holds_no_link() {
    assert_eq!(member_link(&json::parse("[]").unwrap(), "instrument"), Err(LinkError::Missing));
    assert_eq!(
        member_link(&json::parse("\"https://example.com/\"").unwrap(), "instrument"),
        Err(LinkError::Missing)
    );
    assert_eq!(member_link(&json::parse("null").unwrap(), "instrument"), Err(LinkError::Missing));
}

#[test]
fn a_member_is_taken_out() {
    let doc = json::parse("{\"a\":\"1\",\"description\":\"long\",\"b\":2}").unwrap();
    let rest = without_member(doc, "description");
    assert!(!rest.has_key("description"));
    assert_eq!(rest["a"].as_str(), Some("1"));
    assert_eq!(rest["b"].as_u64(), Some(2));
    assert_eq!(rest.len(), 2);
}

#[test]
fn taking_out_what_is_not_there_changes_nothing() {
    let doc = json::parse("{\"a\":\"1\"}").unwrap();
    let rest = without_member(doc.clone(), "description");
    assert_eq!(rest, doc);
    let list = json::parse("[\"description\"]").unwrap();
    assert_eq!(without_member(list.clone(), "description"), list);
}

#[test]
fn path_and_query_may_be_of_any_length() {
    let text = String::from("https://example.com/") + &"a".repeat(3000);
    assert_eq!(resolve_link(Some(text.clone())), Ok(text));
    let text = String::from("https://example.com/q?") + &"k=v&".repeat(50_000);
    assert_eq!(resolve_link(Some(text.clone())), Ok(text));
    let text = String::from("https://example.com/#") + &"f".repeat(100_000);
    assert_eq!(resolve_link(Some(text.clone())), Ok(text));
}

#[test]
fn a_long_link_in_a_document_is_followed() {
    let long = String::from("https://api.robinhood.com/instruments/") + &"a".repeat(3000) + "/";
    let doc = json::parse(&format!("{{\"instrument\":\"{}\"}}", long)).unwrap();
    assert_eq!(member_link(&doc, "instrument"), Ok(long));
}

#[test]
fn a_host_part_of_the_greatest_length_resolves() {
    let text = String::from("http://") + &"a".repeat(640) + "/path";
    assert_eq!(resolve_link(Some(text.clone())), Ok(text));
    let text = String::from("http://") + &"a".repeat(641) + "/path";
    assert_eq!(resolve_link(Some(text)), Err(LinkError::Malformed));
}

#[test]
fn name_and_port_count_as_host_part() {
    let text = String::from("http://") + &"u".repeat(600) + "@example.com:8080/";
    assert_eq!(text.len(), 7 + 600 + 1 + 11 + 5 + 1);
    assert_eq!(resolve_link(Some(text.clone())), Ok(text));
    let text = String::from("http://") + &"u".repeat(630) + "@example.com/";
    assert_eq!(resolve_link(Some(text)), Err(LinkError::Malformed));
}

#[test]
fn a_host_name_beyond_ascii_resolves() {
    assert_eq!(
        resolve_link(Some(String::from("http://bücher.example/"))),
        Ok(String::from("http://xn--bcher-kva.example/"))
    );
    assert_eq!(
        resolve_link(Some(String::from("http://b%C3%BCcher.example/"))),
        Ok(String::from("http://xn--bcher-kva.example/"))
    );
    let text = String::from("http://") + &"a".repeat(600) + "一.example/";
    let url = resolve_link(Some(text)).unwrap();
    assert!(url.starts_with("http://xn--aaaa"));
    assert!(url.ends_with(".example/"));
}

#[test]
fn a_host_that_grows_under_mapping_stays_in_range() {
    // Each of these characters takes three bytes and is mapped to eighteen.
    // With a last character at the end of Unicode this is the longest label
    // that a host part of 640 bytes can give; the parser refuses it for the
    // spaces it holds.
    let text = String::from("http://") + &"\u{fdfa}".repeat(212) + "\u{10f45e}";
    assert_eq!(text.len(), 7 + 640);
    assert_eq!(resolve_link(Some(text)), Err(LinkError::Malformed));
    let text = String::from("http://") + &"%EF%B7%BA".repeat(71) + "\u{10fffd}/";
    assert_eq!(resolve_link(Some(text)), Err(LinkError::Malformed));
}

#[test]
fn a_host_part_that_is_too_long_never_reaches_the_parser() {
    let text = String::from("http://") + &"\u{fdfa}".repeat(215) + "\u{10f45e}";
    assert_eq!(text.len(), 7 + 649);
    assert_eq!(resolve_link(Some(text)), Err(LinkError::Malformed));
    let text = String::from("http://") + &"a".repeat(216_479) + "一";
    assert_eq!(resolve_link(Some(text)), Err(LinkError::Malformed));
    let text = String::from("http://") + &"%EF%B7%BA".repeat(215) + "%F4%8F%91%9E";
    assert_eq!(resolve_link(Some(text)), Err(LinkError::Malformed));
}

#[test]
fn the_host_part_is_found_behind_any_slashes() {
    let host = "\u{fdfa}".repeat(215) + "\u{10f45e}";
    for prefix in ["http:", "http:/", "http:\\\\", "HTTP:/\\/", "http:/\t/\n", " \thttps://", "file://"] {
        assert_eq!(
            resolve_link(Some(String::from(prefix) + &host + "/x")),
            Err(LinkError::Malformed)
        );
    }
    assert_eq!(
        resolve_link(Some(String::from("http:\\\\example.com\\a"))),
        Ok(String::from("http://example.com/a"))
    );
    assert_eq!(
        resolve_link(Some(String::from("http:example.com"))),
        Ok(String::from("http://example.com/"))
    );
}

#[test]
fn a_text_without_a_scheme_is_malformed_whatever_its_length() {
    assert_eq!(resolve_link(Some("a".repeat(5000))), Err(LinkError::Malformed));
    assert_eq!(
        resolve_link(Some(String::from("//example.com/") + &"a".repeat(5000))),
        Err(LinkError::Malformed)
    );
}

#[test]
fn what_follows_the_colon_counts_for_every_scheme() {
    let text = String::from("mailto:") + &"a".repeat(640);
    assert_eq!(resolve_link(Some(text.clone())), Ok(text));
    let text = String::from("mailto:") + &"a".repeat(641);
    assert_eq!(resolve_link(Some(text)), Err(LinkError::Malformed));
}
