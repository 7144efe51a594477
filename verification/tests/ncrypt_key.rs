use schannel::ncrypt_key::NcryptKey;

#[test]
fn key_keeps_its_handle() {
    let key = NcryptKey::from_inner(0x1234);
    assert_eq!(key.as_inner(), 0x1234);
    assert_eq!(key.into_inner(), 0x1234);
}

#[test]
fn key_handle_extremes() {
    assert_eq!(NcryptKey::from_inner(0).as_inner(), 0);
    assert_eq!(NcryptKey::from_inner(usize::MAX).as_inner(), usize::MAX);
}
