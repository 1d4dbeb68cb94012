use mail_autoconfig::address::{urlencode, EmailAddress};
use mail_autoconfig::login_param::{
    normalize_auth_flags, DC_LP_AUTH_FLAGS, DC_LP_AUTH_NORMAL, DC_LP_AUTH_OAUTH2,
};
use mail_autoconfig::text::{before_char, find_char, find_last_char};

#[test]
fn address_splits_at_last_at() {
    let parsed = EmailAddress::parse("someone123@example.org").unwrap();
    assert_eq!(parsed.local, "someone123");
    assert_eq!(parsed.domain, "example.org");
    let parsed = EmailAddress::parse("a@b@c.example").unwrap();
    assert_eq!(parsed.local, "a@b");
    assert_eq!(parsed.domain, "c.example");
    let parsed = EmailAddress::parse("probably@unexistant.addr").unwrap();
    assert_eq!(parsed.domain, "unexistant.addr");
    let parsed = EmailAddress::parse("jürgen@bücher.example").unwrap();
    assert_eq!(parsed.local, "jürgen");
    assert_eq!(parsed.domain, "bücher.example");
}

#[test]
fn malformed_addresses_are_refused() {
    for addr in ["", "someone", "@example.org", "someone@", "@", "a@b@"] {
        assert!(EmailAddress::parse(addr).is_none(), "{:?}", addr);
    }
}

#[test]
fn address_in_a_url() {
    assert_eq!(urlencode("someone123@example.org"), "someone123%40example%2Eorg");
    assert_eq!(urlencode("foo bar?"), "foo%20bar%3F");
    assert_eq!(urlencode("AZaz09"), "AZaz09");
    assert_eq!(urlencode(""), "");
    assert_eq!(urlencode("ü"), "%C3%BC");
    assert_eq!(urlencode("a+b_c-d~e"), "a%2Bb%5Fc%2Dd%7Ee");
}

#[test]
fn text_positions() {
    assert_eq!(find_char("abc@def@g", '@'), Some(3));
    assert_eq!(find_char("abc", '@'), None);
    assert_eq!(find_char("", '@'), None);
    assert_eq!(find_char("üü@", '@'), Some(2));
    assert_eq!(find_last_char("abc@def@g", '@'), Some(7));
    assert_eq!(find_last_char("abc", '@'), None);
    assert_eq!(find_last_char("üü@ü@", '@'), Some(4));
    assert_eq!(find_last_char("", '@'), None);
    assert_eq!(before_char("local@domain", '@'), "local");
    assert_eq!(before_char("local", '@'), "local");
    assert_eq!(before_char("@domain", '@'), "");
}

#[test]
fn authentication_flags() {
    assert_eq!(normalize_auth_flags(0), (DC_LP_AUTH_NORMAL, false));
    assert_eq!(normalize_auth_flags(DC_LP_AUTH_OAUTH2), (DC_LP_AUTH_OAUTH2, true));
    assert_eq!(normalize_auth_flags(DC_LP_AUTH_NORMAL), (DC_LP_AUTH_NORMAL, false));
    assert_eq!(normalize_auth_flags(DC_LP_AUTH_FLAGS), (DC_LP_AUTH_NORMAL, false));
    assert_eq!(normalize_auth_flags(0x102), (0x102, true));
    assert_eq!(normalize_auth_flags(0x100), (0x104, false));
    assert_eq!(normalize_auth_flags(0x106), (0x104, false));
    assert_eq!(normalize_auth_flags(-1), (-1 & !0x6 | 0x4, false));
}
