use base64::Engine;
use ethproofs_client::codec::{encode_bytes, encode_compressed, frame_text, proof_bytes, ProofError};

#[test]
fn words_lowest_byte_first() {
    assert_eq!(proof_bytes(&vec![0x0102030405060708, 1]), vec![
        8, 7, 6, 5, 4, 3, 2, 1, 1, 0, 0, 0, 0, 0, 0, 0
    ]);
    assert!(proof_bytes(&vec![]).is_empty());
}

#[test]
fn words_come_back_from_their_bytes() {
    let words = vec![0, 1, u64::MAX, 0xdead_beef_0000_0001];
    let bytes = proof_bytes(&words);
    for (i, word) in words.iter().enumerate() {
        let mut part = [0u8; 8];
        part.copy_from_slice(&bytes[8 * i..8 * i + 8]);
        assert_eq!(u64::from_le_bytes(part), *word);
    }
}

#[test]
fn base64_has_padding() {
    assert_eq!(encode_bytes(b"").unwrap(), "");
    assert_eq!(encode_bytes(b"M").unwrap(), "TQ==");
    assert_eq!(encode_bytes(b"Ma").unwrap(), "TWE=");
    assert_eq!(encode_bytes(b"Man").unwrap(), "TWFu");
    assert_eq!(encode_bytes(&[0xfb, 0xff]).unwrap(), "+/8=");
}

#[test]
fn frames_become_text() {
    assert_eq!(frame_text(Ok(b"Man".to_vec())).unwrap(), "TWFu");
    let failed = Err(std::io::Error::new(std::io::ErrorKind::Other, "full"));
    assert_eq!(frame_text(failed).unwrap_err(), ProofError::Compression);
}

#[test]
fn compressed_proofs_come_back() {
    let words: Vec<u64> = (0..1000).map(|i| i % 7).collect();
    let text = encode_compressed(&words).unwrap();
    let frame = base64::engine::general_purpose::STANDARD.decode(&text).unwrap();
    assert_eq!(&frame[..4], &[0x28, 0xb5, 0x2f, 0xfd]);
    assert!(frame.len() < 8000);
    let bytes = zstd::stream::decode_all(&frame[..]).unwrap();
    let expected: Vec<u8> = words.iter().flat_map(|w| w.to_ne_bytes()).collect();
    assert_eq!(bytes, expected);
}

#[test]
fn base64_texts_decode() {
    for len in 0..70usize {
        let bytes: Vec<u8> = (0..len).map(|i| (i * 37 + len * 11) as u8).collect();
        let text = encode_bytes(&bytes).unwrap();
        assert_eq!(text.len(), (len + 2) / 3 * 4);
        let back = base64::engine::general_purpose::STANDARD.decode(&text).unwrap();
        assert_eq!(back, bytes);
    }
    let every: Vec<u8> = vec![0x00, 0x10, 0x83, 0x10, 0x51, 0x87, 0x20, 0x92, 0x8b];
    assert_eq!(encode_bytes(&every).unwrap(), "ABCDEFGHIJKL");
    assert_eq!(encode_bytes(&[0xff, 0xff, 0xfe]).unwrap(), "///+");
}

#[test]
fn different_proofs_have_different_texts() {
    let texts: Vec<String> = [vec![], vec![0], vec![0, 0], vec![1], vec![256], vec![u64::MAX]]
        .iter()
        .map(|words| encode_bytes(&proof_bytes(words)).unwrap())
        .collect();
    for i in 0..texts.len() {
        for j in 0..i {
            assert_ne!(texts[i], texts[j]);
        }
    }
}
