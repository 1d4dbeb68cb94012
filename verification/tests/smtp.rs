use mail_autoconfig::dc_pgp::dc_hash_sha256;
use mail_autoconfig::smtp::send::{send_timeout, Error};
use mail_autoconfig::smtp::Smtp;
use mail_autoconfig::text::{join, to_decimal};

fn recipients(list: &[&str]) -> Vec<String> {
    list.iter().map(|s| s.to_string()).collect()
}

#[test]
fn timeout_is_a_minute_and_three_per_megabyte() {
    assert_eq!(send_timeout(0), 60);
    assert_eq!(send_timeout(5_555), 60);
    assert_eq!(send_timeout(5_556), 61);
    assert_eq!(send_timeout(1_000_000), 240);
    assert_eq!(send_timeout(2_500_000), 510);
    assert_eq!(send_timeout(usize::MAX), 60 + (180u128 * usize::MAX as u128 / 1_000_000) as u64);
}

#[test]
fn envelope_is_looked_at_first() {
    let smtp = Smtp::new();
    let res = smtp.send(Err("missing destination address".to_string()), &recipients(&[]), 10);
    let error = res.unwrap_err();
    assert!(matches!(&error, Error::EnvelopeError(reason) if reason == "missing destination address"));
    assert_eq!(error.message(), "Envelope error: missing destination address");
}

#[test]
fn nothing_is_sent_without_a_transport() {
    let mut smtp = Smtp::new();
    assert!(!smtp.has_transport());
    let res = smtp.send(Ok(()), &recipients(&["a@example.org"]), 10);
    let error = res.unwrap_err();
    assert!(matches!(error, Error::NoTransport));
    assert_eq!(error.message(), "SMTP has no transport");
    smtp.set_transport(true);
    assert!(smtp.send(Ok(()), &recipients(&["a@example.org"]), 10).is_ok());
    smtp.set_transport(false);
    assert!(smtp.send(Ok(()), &recipients(&["a@example.org"]), 10).is_err());
}

#[test]
fn delivery_is_noted() {
    let mut smtp = Smtp::new();
    smtp.set_transport(true);
    let outgoing = smtp
        .send(Ok(()), &recipients(&["a@example.org", "b@example.org"]), 1_234_567)
        .unwrap();
    assert_eq!(outgoing.timeout, 282);
    assert_eq!(outgoing.message_len, 1_234_567);
    assert_eq!(outgoing.recipients_display, "a@example.org,b@example.org");
    assert_eq!(smtp.last_success(), None);

    let error = smtp.sent(&outgoing, Err("timeout".to_string()), 17).unwrap_err();
    assert!(matches!(&error, Error::SendError(reason) if reason == "timeout"));
    assert_eq!(error.message(), "Send error: timeout");
    assert_eq!(smtp.last_success(), None);

    let notice = smtp.sent(&outgoing, Ok(()), 18).unwrap();
    assert_eq!(notice, "Message len=1234567 was smtp-sent to a@example.org,b@example.org");
    assert_eq!(smtp.last_success(), Some(18));
    assert!(smtp.has_transport());
}

#[test]
fn numbers_and_lists_as_text() {
    assert_eq!(to_decimal(0), "0");
    assert_eq!(to_decimal(7), "7");
    assert_eq!(to_decimal(10), "10");
    assert_eq!(to_decimal(907), "907");
    assert_eq!(to_decimal(u64::MAX), "18446744073709551615");
    assert_eq!(join(&recipients(&[]), ","), "");
    assert_eq!(join(&recipients(&["a"]), ","), "a");
    assert_eq!(join(&recipients(&["a", "", "c"]), ", "), "a, , c");
}

#[test]
fn sha256_of_known_input() {
    let digest = dc_hash_sha256(b"hello world");
    let hex: String = digest.iter().map(|b| format!("{:02x}", b)).collect();
    assert_eq!(hex, "b94d27b9934d3e08a52e52d7da7dabfac484efe37a5380ee9088f7ace2efcde9");
    assert_eq!(digest.len(), 32);
    let digest = dc_hash_sha256(b"a");
    let hex: String = digest.iter().map(|b| format!("{:02x}", b)).collect();
    assert_eq!(hex, "ca978112ca1bbdcafac231b39a23dc4da786eff8147c4e72b9807785afee48bb");
}
