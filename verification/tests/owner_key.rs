use group_playlist_bot::owner::owner_key;

#[test]
fn owner_key_formats_chat_id() {
    assert_eq!(owner_key(123), "telegram-123");
    assert_eq!(owner_key(0), "telegram-0");
    assert_eq!(owner_key(9876543210), "telegram-9876543210");
}

#[test]
fn owner_key_negative_ids() {
    assert_eq!(owner_key(-7), "telegram--7");
    assert_eq!(owner_key(i64::MIN), "telegram--9223372036854775808");
    assert_eq!(owner_key(i64::MAX), "telegram-9223372036854775807");
}

#[test]
fn owner_key_deterministic() {
    assert_eq!(owner_key(123), owner_key(123));
    assert_eq!(owner_key(-42), owner_key(-42));
}

#[test]
fn owner_key_distinct_for_distinct_ids() {
    assert_ne!(owner_key(123), owner_key(124));
    assert_ne!(owner_key(123), owner_key(-123));
    assert_ne!(owner_key(1), owner_key(10));
}
