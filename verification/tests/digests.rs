use handshaker_core::digest::{md5_hex, sha256_hex, Md5Stream, Sha256Stream};
use handshaker_core::session::RawDownload;

#[test]
fn md5_hex_of_known_input() {
    assert_eq!(md5_hex(b"abc"), "900150983cd24fb0d6963f7d28e17f72");
    assert_eq!(md5_hex(b""), "d41d8cd98f00b204e9800998ecf8427e");
}

#[test]
fn sha256_hex_of_known_input() {
    assert_eq!(sha256_hex(b"abc"), "ba7816bf8f01cfea414140de5dae2223b00361a396177a9cb410ff61f20015ad");
}

#[test]
fn streamed_digests_match_whole_digests() {
    let data: Vec<u8> = (0..5000u32).map(|i| (i % 251) as u8).collect();
    let mut md5 = Md5Stream::new();
    let mut sha = Sha256Stream::new();
    for chunk in data.chunks(777) {
        md5.update(chunk);
        sha.update(chunk);
    }
    assert_eq!(md5.finish_hex(), md5_hex(&data));
    assert_eq!(sha.finish_hex(), sha256_hex(&data));
}

#[test]
fn raw_download_digests_what_it_delivered() {
    let mut download = RawDownload::new(20).expect("fits");
    let first = [0xffu8; 10];
    let second = [0x01u8; 10];
    assert_eq!(download.push(&first).expect("raw"), Some(first.to_vec()));
    assert_eq!(download.push(&second).expect("raw"), Some(second.to_vec()));
    assert!(download.is_done());
    let mut all = first.to_vec();
    all.extend_from_slice(&second);
    assert_eq!(download.md5_hex(), md5_hex(&all));
}
