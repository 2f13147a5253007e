use ip7z::codecs::Codecs;

#[test]
fn codec_ids() {
    assert_eq!(Codecs::BCJ.id(), 0x3030103);
    assert_eq!(Codecs::Copy.id(), 0);
    assert_eq!(Codecs::LZMA2.id(), 0x21);
    assert_eq!(Codecs::AES256CBC.id(), 0x6F00181);
    assert_eq!(Codecs::try_from_primitive(0x30101), Ok(Codecs::LZMA));
    assert_eq!(Codecs::try_from_primitive(0x12345), Err(0x12345));
}

#[test]
fn codec_iteration_lists_every_codec_once() {
    let all = Codecs::iter();
    assert_eq!(all.len(), 25);
    assert_eq!(all[0], Codecs::BCJ);
    assert_eq!(all[24], Codecs::AES256CBC);
    for (i, a) in all.iter().enumerate() {
        assert_eq!(Codecs::try_from_primitive(a.id()), Ok(*a));
        for b in all.iter().skip(i + 1) {
            assert_ne!(a, b);
        }
    }
}

#[test]
fn codec_encoders() {
    assert!(Codecs::LZMA.supports_encoder());
    assert!(Codecs::Z7AES.supports_encoder());
    assert!(!Codecs::Rar1.supports_encoder());
    assert!(!Codecs::Rar2.supports_encoder());
    assert!(!Codecs::Rar3.supports_encoder());
    assert!(!Codecs::Rar5.supports_encoder());
    let without: Vec<Codecs> = Codecs::iter().into_iter().filter(|c| !c.supports_encoder()).collect();
    assert_eq!(without.len(), 4);
}
