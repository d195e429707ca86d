use twiggy::error::TwiggyError;
use twiggy::git::types::CommitId;

#[test]
fn identity_round_trips_through_text() {
    let text = "deadbeef00112233445566778899aabbccddeeff";
    let id = CommitId::parse(text).unwrap();
    assert_eq!(id.bytes[0], 0xde);
    assert_eq!(id.bytes[19], 0xff);
    assert_eq!(id.as_str(), text);
    assert_eq!(id.short(), "deadbee");
    assert_eq!(CommitId::parse(&id.as_str()).unwrap(), id);
}

#[test]
fn identity_accepts_upper_case_and_pads_short_text() {
    let id = CommitId::parse("ABC").unwrap();
    assert_eq!(id.as_str(), "abc0000000000000000000000000000000000000");
}

#[test]
fn identity_rejects_malformed_text() {
    assert!(matches!(CommitId::parse(""), Err(TwiggyError::InvalidIdentity { .. })));
    assert!(matches!(CommitId::parse("xyz"), Err(TwiggyError::InvalidIdentity { .. })));
    let long = "0123456789012345678901234567890123456789a";
    assert!(matches!(CommitId::parse(long), Err(TwiggyError::InvalidIdentity { .. })));
}
