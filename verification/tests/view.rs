use byteview::{Bytes, ToBytes};

#[test]
fn slice_conversion_keeps_size_and_bytes() {
    let cases: Vec<Vec<u8>> = vec![
        vec![],
        vec![0],
        vec![1, 2, 3],
        vec![255, 0, 255, 0, 128],
        (0u8..=255).collect(),
    ];
    for s in cases.iter() {
        let b: Bytes = s.as_slice().to_bytes();
        assert_eq!(b.size(), s.len());
        assert_eq!(b.as_ref(), s.as_slice());
    }
}

#[test]
fn size_of_each_mode() {
    let data: [u8; 5] = [1, 2, 3, 4, 5];
    assert_eq!((&data[..]).to_bytes().size(), 5);
    assert_eq!(data.to_bytes().size(), 5);
    assert_eq!(data.to_vec().to_bytes().size(), 5);
    assert_eq!(String::from("12345").to_bytes().size(), 5);
    assert_eq!("12345".to_bytes().size(), 5);
    assert_eq!(bytes::Bytes::from_static(b"12345").to_bytes().size(), 5);
}

#[test]
fn empty_sources_give_empty_buffers() {
    let empty: [u8; 0] = [];
    let views: Vec<Bytes> = vec![
        (&empty[..]).to_bytes(),
        "".to_bytes(),
        empty.to_bytes(),
        String::new().to_bytes(),
        Vec::<u8>::new().to_bytes(),
        bytes::Bytes::new().to_bytes(),
    ];
    for v in views.iter() {
        assert_eq!(v.size(), 0);
        assert!(v.as_ref().is_empty());
    }
}

#[test]
fn text_is_read_as_its_utf8_bytes() {
    let text: &str = "h\u{e9}llo \u{4e16}\u{754c}";
    let expected: &[u8] = text.as_bytes();
    assert_eq!(expected.len(), 13);
    let borrowed: Bytes = text.to_bytes();
    assert_eq!(borrowed.size(), 13);
    assert_eq!(borrowed.as_ref(), expected);
    let owned: Bytes = String::from(text).to_bytes();
    assert_eq!(owned.size(), 13);
    assert_eq!(owned.as_ref(), expected);
    assert_eq!(owned.as_ref()[1], 0xc3);
    assert_eq!(owned.as_ref()[2], 0xa9);
}

#[test]
fn integer_bytes_convert() {
    let a: Bytes = 0x0102u16.to_be_bytes().to_bytes();
    assert_eq!(a.as_ref(), &[1u8, 2][..]);
    let b: Bytes = 0x01020304u32.to_be_bytes().to_bytes();
    assert_eq!(b.as_ref(), &[1u8, 2, 3, 4][..]);
    let c: Bytes = 1u64.to_le_bytes().to_bytes();
    assert_eq!(c.as_ref(), &[1u8, 0, 0, 0, 0, 0, 0, 0][..]);
    let d: Bytes = u128::MAX.to_be_bytes().to_bytes();
    assert_eq!(d.size(), 16);
    assert_eq!(d.as_ref(), &[255u8; 16][..]);
    let e: Bytes = 7u8.to_be_bytes().to_bytes();
    assert_eq!(e.as_ref(), &[7u8][..]);
}

#[test]
fn arrays_of_every_accepted_length() {
    let full: [u8; 16] = [1, 2, 3, 4, 5, 6, 7, 8, 9, 10, 11, 12, 13, 14, 15, 16];
    let made: Vec<Bytes> = vec![
        <[u8; 0]>::try_from(&full[..0]).unwrap().to_bytes(),
        <[u8; 1]>::try_from(&full[..1]).unwrap().to_bytes(),
        <[u8; 2]>::try_from(&full[..2]).unwrap().to_bytes(),
        <[u8; 3]>::try_from(&full[..3]).unwrap().to_bytes(),
        <[u8; 4]>::try_from(&full[..4]).unwrap().to_bytes(),
        <[u8; 5]>::try_from(&full[..5]).unwrap().to_bytes(),
        <[u8; 6]>::try_from(&full[..6]).unwrap().to_bytes(),
        <[u8; 7]>::try_from(&full[..7]).unwrap().to_bytes(),
        <[u8; 8]>::try_from(&full[..8]).unwrap().to_bytes(),
        <[u8; 9]>::try_from(&full[..9]).unwrap().to_bytes(),
        <[u8; 10]>::try_from(&full[..10]).unwrap().to_bytes(),
        <[u8; 11]>::try_from(&full[..11]).unwrap().to_bytes(),
        <[u8; 12]>::try_from(&full[..12]).unwrap().to_bytes(),
        <[u8; 13]>::try_from(&full[..13]).unwrap().to_bytes(),
        <[u8; 14]>::try_from(&full[..14]).unwrap().to_bytes(),
        <[u8; 15]>::try_from(&full[..15]).unwrap().to_bytes(),
        full.to_bytes(),
    ];
    assert_eq!(made.len(), 17);
    for (n, b) in made.iter().enumerate() {
        assert_eq!(b.size(), n);
        assert_eq!(b.as_ref(), &full[..n]);
        assert!(matches!(b, Bytes::Bytes(_)));
    }
}

#[test]
fn each_source_gives_its_mode() {
    let data: [u8; 2] = [1, 2];
    assert!(matches!((&data[..]).to_bytes(), Bytes::Slice(_)));
    assert!(matches!("ab".to_bytes(), Bytes::Slice(_)));
    assert!(matches!(data.to_bytes(), Bytes::Bytes(_)));
    assert!(matches!(String::from("ab").to_bytes(), Bytes::String(_)));
    assert!(matches!(vec![1u8, 2].to_bytes(), Bytes::Vec(_)));
    let shared = bytes::Bytes::from_static(b"ab");
    assert!(matches!((&shared).to_bytes(), Bytes::Bytes(_)));
    assert!(matches!(shared.to_bytes(), Bytes::Bytes(_)));
}

#[test]
fn identity_conversion_by_value() {
    let data: [u8; 3] = [5, 6, 7];
    let sources: Vec<Bytes> = vec![
        (&data[..]).to_bytes(),
        data.to_bytes(),
        data.to_vec().to_bytes(),
        String::from("xyz").to_bytes(),
    ];
    for source in sources.into_iter() {
        let kept: Bytes = source.clone();
        let again: Bytes = source.to_bytes();
        assert_eq!(again.size(), kept.size());
        assert_eq!(again.as_ref(), kept.as_ref());
        assert_eq!(again, kept);
        assert_eq!(std::mem::discriminant(&again), std::mem::discriminant(&kept));
        assert_eq!(again.as_ref().as_ptr() as usize, kept.as_ref().as_ptr() as usize);
    }
}

#[test]
fn identity_conversion_by_reference() {
    let data: [u8; 3] = [5, 6, 7];
    let sources: Vec<Bytes> = vec![
        (&data[..]).to_bytes(),
        data.to_bytes(),
        data.to_vec().to_bytes(),
        String::from("xyz").to_bytes(),
    ];
    for source in sources.iter() {
        let bytes_before: Vec<u8> = source.as_ref().to_vec();
        let copy: Bytes = source.to_bytes();
        assert_eq!(copy.size(), 3);
        assert_eq!(copy.as_ref(), bytes_before.as_slice());
        assert_eq!(&copy, source);
        assert_eq!(std::mem::discriminant(&copy), std::mem::discriminant(source));
        drop(copy);
        assert_eq!(source.size(), 3);
        assert_eq!(source.as_ref(), bytes_before.as_slice());
    }
}

#[test]
fn array_and_borrowed_slice_agree() {
    let copied: Bytes = [0u8, 0, 0].to_bytes();
    let borrowed: Bytes = (&[0u8, 0, 0][..]).to_bytes();
    assert_eq!(copied.size(), 3);
    assert_eq!(borrowed.size(), 3);
    assert!(copied == borrowed);
    assert!(borrowed == copied);
    assert!(matches!(copied, Bytes::Bytes(_)));
    assert!(matches!(borrowed, Bytes::Slice(_)));
}
