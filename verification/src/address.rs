//! Mail addresses: their two parts, and their form inside a URL.

use crate::text::{find_last_char, last_position, lemma_last_position, skip_chars, take_chars};
use vstd::prelude::*;
use vstd::string::*;
use vstd::utf8::encode_utf8;

verus! {

/// A mail address split at its last `@`.
#[derive(Debug)]
pub struct EmailAddress {
    pub local: String,
    pub domain: String,
}

/// Mathematical value of an [`EmailAddress`].
pub struct EmailAddressView {
    pub local: Seq<char>,
    pub domain: Seq<char>,
}

impl View for EmailAddress {
    type V = EmailAddressView;

    open spec fn view(&self) -> EmailAddressView {
        EmailAddressView { local: self.local@, domain: self.domain@ }
    }
}

/// The two parts of an address.
///
/// An address is well formed where it has an `@` with something before the
/// last one and something behind it. What stands before the last `@` is the
/// local part, what stands behind it is the domain.
pub open spec fn parsed(addr: Seq<char>) -> Option<EmailAddressView> {
    let at = last_position(addr, '@');
    if 0 < at && at + 1 < addr.len() {
        Some(EmailAddressView { local: addr.take(at), domain: addr.skip(at + 1) })
    } else {
        None
    }
}

impl EmailAddress {
    /// Splits an address into local part and domain; `None` where it is
    /// malformed.
    pub fn parse(addr: &str) -> (res: Option<EmailAddress>)
        ensures
            res.is_some() == parsed(addr@).is_some(),
            res matches Some(a) ==> Some(a@) == parsed(addr@),
    {
        proof {
            lemma_last_position(addr@, '@');
        }
        match find_last_char(addr, '@') {
            Some(at) => {
                let len = addr.unicode_len();
                if 0 < at && at + 1 < len {
                    Some(
                        EmailAddress {
                            local: take_chars(addr, at),
                            domain: skip_chars(addr, at + 1),
                        },
                    )
                } else {
                    None
                }
            },
            None => None,
        }
    }
}

/// The parts of a well-formed address are not empty, the domain holds no
/// `@`, and the parts with an `@` between them are the address again.
pub proof fn lemma_parsed(addr: Seq<char>)
    requires
        parsed(addr) is Some,
    ensures
        parsed(addr)->0.local.len() > 0,
        parsed(addr)->0.domain.len() > 0,
        !parsed(addr)->0.domain.contains('@'),
        parsed(addr)->0.local + seq!['@'] + parsed(addr)->0.domain == addr,
{
    lemma_last_position(addr, '@');
    let at = last_position(addr, '@');
    let domain = addr.skip(at + 1);
    if domain.contains('@') {
        let k = choose|k: int| 0 <= k < domain.len() && domain[k] == '@';
        assert(addr[at + 1 + k] == '@');
    }
    assert(addr.take(at) + seq!['@'] + domain =~= addr);
}

/// Whether a byte is an ASCII letter or digit.
pub open spec fn is_alphanumeric(byte: u8) -> bool {
    ||| 0x30 <= byte <= 0x39
    ||| 0x41 <= byte <= 0x5a
    ||| 0x61 <= byte <= 0x7a
}

/// The upper-case hexadecimal digit of a number below 16.
pub open spec fn hex_digit(n: int) -> char {
    "0123456789ABCDEF"@[n]
}

/// How one byte stands in a URL: a letter or digit as itself, any other
/// byte as `%` and its two hexadecimal digits.
pub open spec fn encoded_byte(byte: u8) -> Seq<char> {
    if is_alphanumeric(byte) {
        seq![byte as char]
    } else {
        seq!['%', hex_digit(byte as int / 16), hex_digit(byte as int % 16)]
    }
}

/// The bytes written one after the other as they stand in a URL.
pub open spec fn percent_encoded(bytes: Seq<u8>) -> Seq<char> {
    bytes.flat_map(|byte: u8| encoded_byte(byte))
}

/// An address as it stands in a URL: the bytes of its UTF-8 encoding,
/// percent-encoded but for letters and digits.
pub open spec fn url_encoded(addr: Seq<char>) -> Seq<char> {
    percent_encoded(encode_utf8(addr))
}

/// Percent-encodes a string with `percent_encoding::utf8_percent_encode` and
/// the set `NON_ALPHANUMERIC`.
///
/// Trusted: that crate leaves the ASCII letters and digits of the string's
/// UTF-8 encoding as they are and replaces every other byte by `%` and the
/// byte's two upper-case hexadecimal digits.
#[verifier::external_body]
fn percent_encode(s: &str) -> (res: String)
    ensures
        res@ == percent_encoded(s.spec_bytes()),
{
    percent_encoding::utf8_percent_encode(s, percent_encoding::NON_ALPHANUMERIC).to_string()
}

/// The address as it stands in the query of a discovery URL.
pub fn urlencode(addr: &str) -> (res: String)
    ensures
        res@ == url_encoded(addr@),
{
    percent_encode(addr)
}

/// Whether a character may stand anywhere in a URL: a letter, a digit, or
/// the `%` of an escape.
pub open spec fn is_url_safe(c: char) -> bool {
    ||| '0' <= c <= '9'
    ||| 'A' <= c <= 'Z'
    ||| 'a' <= c <= 'z'
    ||| c == '%'
}

/// An encoded address holds nothing but letters, digits and `%`.
pub proof fn lemma_url_encoded_is_safe(addr: Seq<char>)
    ensures
        forall|j: int|
            0 <= j < url_encoded(addr).len() ==> is_url_safe(#[trigger] url_encoded(addr)[j]),
{
    lemma_percent_encoded_is_safe(encode_utf8(addr));
}

proof fn lemma_percent_encoded_is_safe(bytes: Seq<u8>)
    ensures
        forall|j: int|
            0 <= j < percent_encoded(bytes).len() ==> is_url_safe(
                #[trigger] percent_encoded(bytes)[j],
            ),
    decreases bytes.len(),
{
    if bytes.len() == 0 {
        assert(percent_encoded(bytes) =~= Seq::<char>::empty());
    } else {
        let init = bytes.drop_last();
        let last = bytes.last();
        let written = percent_encoded(init).len();
        lemma_percent_encoded_is_safe(init);
        init.lemma_flat_map_push(|byte: u8| encoded_byte(byte), last);
        assert(init.push(last) =~= bytes);
        reveal_strlit("0123456789ABCDEF");
        assert forall|j: int| 0 <= j < percent_encoded(bytes).len() implies is_url_safe(
            #[trigger] percent_encoded(bytes)[j],
        ) by {
            if j >= written {
                assert(0 <= last as int / 16 < 16 && 0 <= last as int % 16 < 16);
                assert(percent_encoded(bytes)[j] == encoded_byte(last)[j - written]);
            } else {
                assert(percent_encoded(bytes)[j] == percent_encoded(init)[j]);
            }
        }
    }
}

} // verus!
