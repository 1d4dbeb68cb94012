//! Helpers around keys and encrypted messages.

use crate::bytes::{
    ascii, ascii_bytes, copy_range, find_byte, find_pattern, find_sub, lemma_find_sub,
    lemma_next_of, next_of, stands, stands_at, trim_range, trimmed,
};
use sha2::Digest;
use vstd::prelude::*;
use vstd::string::*;

verus! {

/// The SHA-256 digest of a sequence of bytes.
pub uninterp spec fn sha256(bytes: Seq<u8>) -> Seq<u8>;

/// Length of a SHA-256 digest in bytes.
pub const SHA256_LEN: usize = 32;

/// Computes the digest with `sha2::Sha256::digest`.
///
/// Trusted: the result is the SHA-256 digest of the bytes, a function of
/// the bytes alone, and it is 32 bytes long.
#[verifier::external_body]
fn sha256_digest(bytes: &[u8]) -> (res: Vec<u8>)
    ensures
        res@ == sha256(bytes@),
        res@.len() == SHA256_LEN,
{
    sha2::Sha256::digest(bytes).to_vec()
}

/// Calculates the SHA-256 hash of the given bytes, of which there must be
/// some.
pub fn dc_hash_sha256(bytes: &[u8]) -> (res: Vec<u8>)
    requires
        bytes@.len() > 0,
    ensures
        res@ == sha256(bytes@),
        res@.len() == SHA256_LEN,
{
    sha256_digest(bytes)
}

/// The parts of an armored text.
#[derive(Debug)]
pub struct ArmoredData {
    /// The line that opens the armor, without white space around it.
    pub headerline: Option<Vec<u8>>,
    /// The value of the header `Passphrase-Begin`.
    pub setupcodebegin: Option<Vec<u8>>,
    /// The value of the header `Autocrypt-Prefer-Encrypt`.
    pub preferencrypt: Option<Vec<u8>>,
    /// The armored data, without white space around it. It is there
    /// exactly where the text is a complete armor.
    pub base64: Option<Vec<u8>>,
}

/// Mathematical value of an [`ArmoredData`].
pub struct ArmoredDataView {
    pub headerline: Option<Seq<u8>>,
    pub setupcodebegin: Option<Seq<u8>>,
    pub preferencrypt: Option<Seq<u8>>,
    pub base64: Option<Seq<u8>>,
}

/// The bytes of an optional part.
pub open spec fn part(bytes: Option<Vec<u8>>) -> Option<Seq<u8>> {
    match bytes {
        Some(bytes) => Some(bytes@),
        None => None,
    }
}

impl View for ArmoredData {
    type V = ArmoredDataView;

    open spec fn view(&self) -> ArmoredDataView {
        ArmoredDataView {
            headerline: part(self.headerline),
            setupcodebegin: part(self.setupcodebegin),
            preferencrypt: part(self.preferencrypt),
            base64: part(self.base64),
        }
    }
}

/// Line feed.
pub const LF: u8 = 0x0a;

/// Carriage return.
pub const CR: u8 = 0x0d;

/// The colon between the name and the value of a header.
pub const COLON: u8 = 0x3a;

/// The text without its carriage returns.
pub open spec fn without_cr(buf: Seq<u8>) -> Seq<u8> {
    buf.filter(|byte: u8| byte != CR)
}

/// Whether a line, taken without white space around it, opens an armor:
/// it begins with a dash and ends with five dashes.
pub open spec fn is_header_line(line: Seq<u8>) -> bool {
    &&& line.len() >= 5
    &&& line[0] == 0x2d
    &&& line.skip(line.len() - 5) == ascii("-----"@)
}

/// Whether a line holds nothing but blanks and tabs, line feeds and
/// carriage returns.
pub open spec fn is_blank_line(line: Seq<u8>) -> bool {
    forall|i: int|
        0 <= i < line.len() ==> line[i] == 0x20 || line[i] == 0x09 || line[i] == LF || line[i]
            == CR
}

/// A byte with an upper-case letter turned into its lower-case letter.
pub open spec fn lower(byte: u8) -> u8 {
    if 0x41 <= byte <= 0x5a {
        (byte + 0x20) as u8
    } else {
        byte
    }
}

/// Whether a header name is `key`, whatever the case of its letters.
pub open spec fn is_named(name: Seq<u8>, key: Seq<u8>) -> bool {
    name.map_values(|byte: u8| lower(byte)) == key.map_values(|byte: u8| lower(byte))
}

/// The header line of a text and the place behind its line feed.
///
/// Only lines that end in a line feed count. The header line is the first
/// of them, from `from` on, that opens an armor.
pub open spec fn header_search(text: Seq<u8>, from: int) -> Option<(Seq<u8>, int)>
    decreases text.len() - from,
{
    let end = next_of(text, LF, from);
    if from < 0 || end >= text.len() {
        None
    } else {
        let line = trimmed(text.subrange(from, end));
        if is_header_line(line) {
            Some((line, end + 1))
        } else {
            proof {
                lemma_next_of(text, LF, from);
            }
            header_search(text, end + 1)
        }
    }
}

/// What the headers of an armor say, and where its data begin.
pub struct HeadersView {
    pub setupcodebegin: Option<Seq<u8>>,
    pub preferencrypt: Option<Seq<u8>>,
    pub data: Option<int>,
}

/// The headers with the header of one line added: the line is split at
/// `colon` into name and value, both without white space around them.
/// Names other than the two known ones are passed over.
pub open spec fn with_header(found: HeadersView, text: Seq<u8>, from: int, colon: int, end: int)
    -> HeadersView {
    let name = trimmed(text.subrange(from, colon));
    let value = trimmed(text.subrange(colon + 1, end));
    if is_named(name, ascii("Passphrase-Begin"@)) {
        HeadersView { setupcodebegin: Some(value), ..found }
    } else if is_named(name, ascii("Autocrypt-Prefer-Encrypt"@)) {
        HeadersView { preferencrypt: Some(value), ..found }
    } else {
        found
    }
}

/// The headers of an armor, read line by line from `from` on.
///
/// Only lines that end in a line feed count. A blank line ends the
/// headers, and the data begin behind it. A line without a colon ends them
/// too and is the first line of the data. Every other line is a header.
/// Where the lines run out before the headers end, there are no data.
pub open spec fn header_scan(text: Seq<u8>, from: int, found: HeadersView) -> HeadersView
    decreases text.len() - from,
{
    let end = next_of(text, LF, from);
    if from < 0 || end >= text.len() {
        found
    } else {
        let colon = next_of(text.subrange(0, end), COLON, from);
        if is_blank_line(text.subrange(from, end)) {
            HeadersView { data: Some(end + 1), ..found }
        } else if colon >= end {
            HeadersView { data: Some(from), ..found }
        } else {
            proof {
                lemma_next_of(text, LF, from);
            }
            header_scan(text, end + 1, with_header(found, text, from, colon, end))
        }
    }
}

/// The data of an armor, without white space around them.
///
/// They reach from `start` to the first `-----END ` behind it, and what
/// follows that must be what followed `-----BEGIN ` in the header line.
/// Else the armor is not complete and has no data.
pub open spec fn armored_body(text: Seq<u8>, headerline: Seq<u8>, data: Option<int>) -> Option<
    Seq<u8>,
> {
    match data {
        Some(start) => match find_sub(text, ascii("-----END "@), start) {
            Some(end) => if headerline.len() >= 11 && stands(
                text,
                headerline.skip(11),
                end + 9,
            ) {
                Some(trimmed(text.subrange(start, end)))
            } else {
                None
            },
            None => None,
        },
        None => None,
    }
}

/// The parts of an armored text.
///
/// Carriage returns are dropped first. Then the header line is looked for,
/// the headers behind it are read, and the data behind them are taken up
/// to the line that closes the armor.
pub open spec fn split_armored(buf: Seq<u8>) -> ArmoredDataView {
    let text = without_cr(buf);
    match header_search(text, 0) {
        Some((headerline, next)) => {
            let headers = header_scan(
                text,
                next,
                HeadersView { setupcodebegin: None, preferencrypt: None, data: None },
            );
            ArmoredDataView {
                headerline: Some(headerline),
                setupcodebegin: headers.setupcodebegin,
                preferencrypt: headers.preferencrypt,
                base64: armored_body(text, headerline, headers.data),
            }
        },
        None => ArmoredDataView {
            headerline: None,
            setupcodebegin: None,
            preferencrypt: None,
            base64: None,
        },
    }
}

/// What the search for the header line finds is a line that opens an
/// armor, and the place behind it lies in the text and behind the start of
/// the search.
pub proof fn lemma_header_search(text: Seq<u8>, from: int)
    requires
        0 <= from <= text.len(),
        header_search(text, from) is Some,
    ensures
        ({
            let (line, next) = header_search(text, from)->0;
            is_header_line(line) && from < next <= text.len()
        }),
    decreases text.len() - from,
{
    let end = next_of(text, LF, from);
    lemma_next_of(text, LF, from);
    if !is_header_line(trimmed(text.subrange(from, end))) {
        lemma_header_search(text, end + 1);
    }
}

/// The parts of an armored text hang together: without a header line
/// there is no other part, the header line opens an armor, and there are
/// data only behind a header line that names what it opens.
pub proof fn lemma_split_armored(buf: Seq<u8>)
    ensures
        split_armored(buf).headerline is None ==> {
            &&& split_armored(buf).setupcodebegin is None
            &&& split_armored(buf).preferencrypt is None
            &&& split_armored(buf).base64 is None
        },
        split_armored(buf).headerline matches Some(line) ==> is_header_line(line),
        split_armored(buf).base64 is Some ==> (split_armored(buf).headerline matches Some(line)
            && line.len() >= 11),
{
    let text = without_cr(buf);
    if header_search(text, 0) is Some {
        lemma_header_search(text, 0);
    }
}

/// A copy of the text without its carriage returns.
fn remove_cr(buf: &[u8]) -> (res: Vec<u8>)
    ensures
        res@ == without_cr(buf@),
{
    let ghost kept = |byte: u8| byte != CR;
    let mut res: Vec<u8> = Vec::new();
    let mut i: usize = 0;
    proof {
        reveal(Seq::filter);
        assert(buf@.take(0).filter(kept) =~= Seq::<u8>::empty());
    }
    while i < buf.len()
        invariant
            i <= buf.len(),
            kept == |byte: u8| byte != CR,
            res@ == buf@.take(i as int).filter(kept),
        decreases buf.len() - i,
    {
        proof {
            buf@.take(i as int).lemma_filter_push(buf@[i as int], kept);
            assert(buf@.take(i as int).push(buf@[i as int]) =~= buf@.take(i + 1));
        }
        if buf[i] != CR {
            res.push(buf[i]);
        }
        i = i + 1;
    }
    assert(buf@.take(i as int) =~= buf@);
    res
}

/// Whether the trimmed line between `from` and `to` opens an armor.
fn opens_armor(text: &[u8], from: usize, to: usize) -> (res: bool)
    requires
        from <= to <= text@.len(),
    ensures
        res == is_header_line(text@.subrange(from as int, to as int)),
{
    proof {
        reveal_strlit("-----");
    }
    if to - from < 5 || text[from] != 0x2d {
        return false;
    }
    let res = stands_at(text, ascii_bytes("-----"), to - 5);
    assert(text@.subrange(from as int, to as int).skip(to - from - 5) =~= text@.subrange(
        to - 5,
        to as int,
    ));
    res
}

/// Whether the line between `from` and `to` is blank.
fn line_is_blank(text: &[u8], from: usize, to: usize) -> (res: bool)
    requires
        from <= to <= text@.len(),
    ensures
        res == is_blank_line(text@.subrange(from as int, to as int)),
{
    let ghost line = text@.subrange(from as int, to as int);
    let mut i = from;
    while i < to
        invariant
            from <= i <= to <= text@.len(),
            line == text@.subrange(from as int, to as int),
            forall|j: int|
                0 <= j < i - from ==> line[j] == 0x20 || line[j] == 0x09 || line[j] == LF
                    || line[j] == CR,
        decreases to - i,
    {
        let byte = text[i];
        if !(byte == 0x20 || byte == 0x09 || byte == LF || byte == CR) {
            assert(line[i - from] == byte);
            return false;
        }
        i = i + 1;
    }
    true
}

/// A byte with an upper-case letter turned into its lower-case letter.
fn to_lower(byte: u8) -> (res: u8)
    ensures
        res == lower(byte),
{
    if 0x41 <= byte && byte <= 0x5a {
        byte + 0x20
    } else {
        byte
    }
}

/// Whether the name between `from` and `to` is `key`, whatever the case of
/// its letters.
fn name_is(text: &[u8], from: usize, to: usize, key: &[u8]) -> (res: bool)
    requires
        from <= to <= text@.len(),
    ensures
        res == is_named(text@.subrange(from as int, to as int), key@),
{
    let ghost name = text@.subrange(from as int, to as int);
    let ghost lowered = |byte: u8| lower(byte);
    if to - from != key.len() {
        assert(name.map_values(lowered).len() != key@.map_values(lowered).len());
        return false;
    }
    let mut i: usize = 0;
    while i < key.len()
        invariant
            i <= key.len(),
            from + key.len() == to,
            to <= text@.len(),
            name == text@.subrange(from as int, to as int),
            lowered == |byte: u8| lower(byte),
            forall|j: int| 0 <= j < i ==> lower(name[j]) == lower(key@[j]),
        decreases key.len() - i,
    {
        if to_lower(text[from + i]) != to_lower(key[i]) {
            assert(name.map_values(lowered)[i as int] != key@.map_values(lowered)[i as int]);
            return false;
        }
        i = i + 1;
    }
    assert(name.map_values(lowered) =~= key@.map_values(lowered));
    true
}

/// A copy of the part of `text` between `from` and `to` without the white
/// space around it.
fn trimmed_copy(text: &[u8], from: usize, to: usize) -> (res: Vec<u8>)
    requires
        from <= to <= text@.len(),
    ensures
        res@ == trimmed(text@.subrange(from as int, to as int)),
{
    let (start, end) = trim_range(text, from, to);
    copy_range(text, start, end)
}

/// What is known of an armor while its lines are read.
struct Headers {
    setupcodebegin: Option<Vec<u8>>,
    preferencrypt: Option<Vec<u8>>,
    data: Option<usize>,
}

impl View for Headers {
    type V = HeadersView;

    closed spec fn view(&self) -> HeadersView {
        HeadersView {
            setupcodebegin: part(self.setupcodebegin),
            preferencrypt: part(self.preferencrypt),
            data: match self.data {
                Some(start) => Some(start as int),
                None => None,
            },
        }
    }
}

/// Finds the header line from `from` on; see [`header_search`].
fn search_header(text: &[u8], from: usize) -> (res: Option<(Vec<u8>, usize)>)
    requires
        from <= text@.len(),
    ensures
        res matches Some((line, next)) ==> header_search(text@, from as int) == Some(
            (line@, next as int),
        ) && next <= text@.len(),
        res is None ==> header_search(text@, from as int) is None,
{
    let mut at = from;
    loop
        invariant
            at <= text@.len(),
            header_search(text@, at as int) == header_search(text@, from as int),
        decreases text@.len() - at,
    {
        let end = find_byte(text, LF, at, text.len());
        assert(text@.subrange(0, text@.len() as int) =~= text@);
        if end >= text.len() {
            return None;
        }
        let (start, stop) = trim_range(text, at, end);
        if opens_armor(text, start, stop) {
            return Some((copy_range(text, start, stop), end + 1));
        }
        at = end + 1;
    }
}

/// Reads the header of one line; see [`with_header`].
fn read_header(found: Headers, text: &[u8], from: usize, colon: usize, end: usize) -> (res:
    Headers)
    requires
        from <= colon < end <= text@.len(),
    ensures
        res@ == with_header(found@, text@, from as int, colon as int, end as int),
{
    proof {
        reveal_strlit("Passphrase-Begin");
        reveal_strlit("Autocrypt-Prefer-Encrypt");
    }
    let (start, stop) = trim_range(text, from, colon);
    if name_is(text, start, stop, ascii_bytes("Passphrase-Begin")) {
        Headers { setupcodebegin: Some(trimmed_copy(text, colon + 1, end)), ..found }
    } else if name_is(text, start, stop, ascii_bytes("Autocrypt-Prefer-Encrypt")) {
        Headers { preferencrypt: Some(trimmed_copy(text, colon + 1, end)), ..found }
    } else {
        found
    }
}

/// Reads the headers from `from` on; see [`header_scan`].
fn scan_headers(text: &[u8], from: usize) -> (res: Headers)
    requires
        from <= text@.len(),
    ensures
        res@ == header_scan(
            text@,
            from as int,
            HeadersView { setupcodebegin: None, preferencrypt: None, data: None },
        ),
        res.data matches Some(start) ==> start <= text@.len(),
{
    let ghost nothing = HeadersView { setupcodebegin: None, preferencrypt: None, data: None };
    let mut at = from;
    let mut found = Headers { setupcodebegin: None, preferencrypt: None, data: None };
    loop
        invariant
            at <= text@.len(),
            found.data is None,
            nothing == (HeadersView { setupcodebegin: None, preferencrypt: None, data: None }),
            header_scan(text@, at as int, found@) == header_scan(text@, from as int, nothing),
        decreases text@.len() - at,
    {
        let end = find_byte(text, LF, at, text.len());
        assert(text@.subrange(0, text@.len() as int) =~= text@);
        if end >= text.len() {
            return found;
        }
        if line_is_blank(text, at, end) {
            return Headers { data: Some(end + 1), ..found };
        }
        let colon = find_byte(text, COLON, at, end);
        if colon >= end {
            return Headers { data: Some(at), ..found };
        }
        found = read_header(found, text, at, colon, end);
        at = end + 1;
    }
}

/// Takes the data of an armor; see [`armored_body`].
fn take_body(text: &[u8], headerline: &[u8], data: Option<usize>) -> (res: Option<Vec<u8>>)
    requires
        data matches Some(start) ==> start <= text@.len(),
    ensures
        part(res) == armored_body(
            text@,
            headerline@,
            match data {
                Some(start) => Some(start as int),
                None => None,
            },
        ),
{
    proof {
        reveal_strlit("-----END ");
    }
    let start = match data {
        Some(start) => start,
        None => {
            return None;
        },
    };
    let end = match find_pattern(text, ascii_bytes("-----END "), start) {
        Some(end) => end,
        None => {
            return None;
        },
    };
    proof {
        lemma_find_sub(text@, ascii("-----END "@), start as int);
        assert(ascii("-----END "@).len() == 9);
        assert(end + 9 <= text.len());
    }
    if headerline.len() < 11 {
        return None;
    }
    let closing = copy_range(headerline, 11, headerline.len());
    if stands_at(text, closing.as_slice(), end + 9) {
        Some(trimmed_copy(text, start, end))
    } else {
        None
    }
}

/// Splits an armored text into its header line, its two known headers and
/// its data; see [`split_armored`].
pub fn dc_split_armored_data(buf: &[u8]) -> (res: ArmoredData)
    ensures
        res@ == split_armored(buf@),
{
    let text = remove_cr(buf);
    match search_header(text.as_slice(), 0) {
        Some((headerline, next)) => {
            let headers = scan_headers(text.as_slice(), next);
            let base64 = take_body(text.as_slice(), headerline.as_slice(), headers.data);
            ArmoredData {
                headerline: Some(headerline),
                setupcodebegin: headers.setupcodebegin,
                preferencrypt: headers.preferencrypt,
                base64,
            }
        },
        None => ArmoredData {
            headerline: None,
            setupcodebegin: None,
            preferencrypt: None,
            base64: None,
        },
    }
}

} // verus!
