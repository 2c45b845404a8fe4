use rustc_serialize::base64::{CharacterSet, Config, Newline, ToBase64};
use sota_client::datatype::{Error, Package};
use sota_client::persistence::{ChunkWrite, PackageFile, Transfers};

fn pkg(name: &str) -> Package {
    Package { name: name.to_string(), version: "1.0".to_string() }
}

fn url_safe(bytes: &[u8]) -> String {
    bytes.to_base64(Config {
        char_set: CharacterSet::UrlSafe,
        newline: Newline::LF,
        pad: true,
        line_length: None,
    })
}

#[test]
fn a_new_package_file_holds_what_it_was_given() {
    let file = PackageFile::new("pkg-1.0", 5, 2);
    assert_eq!(file.package_name(), "pkg-1.0".to_string());
    assert_eq!(file.total_size(), 5);
    assert_eq!(file.chunk_size(), 2);
    assert!(!file.is_finished());
    assert_eq!(file.transferred_chunks(), Vec::<u64>::new());
}

#[test]
fn a_chunk_is_decoded_and_placed_at_its_offset() {
    let mut file = PackageFile::new("pkg", 10, 4);
    let ack = file.write_chunk(&url_safe(b"abcd"), 1).unwrap();
    assert_eq!(ack.chunks, vec![1]);
    assert_eq!(ack.write, Some(ChunkWrite { offset: 4, bytes: b"abcd".to_vec() }));
}

#[test]
fn chunks_are_acknowledged_in_ascending_order() {
    let mut file = PackageFile::new("pkg", 10, 2);
    file.write_chunk("AA", 3).unwrap();
    file.write_chunk("AA", 0).unwrap();
    let ack = file.write_chunk("AA", 2).unwrap();
    assert_eq!(ack.chunks, vec![0, 2, 3]);
    assert_eq!(file.transferred_chunks(), vec![0, 2, 3]);
}

#[test]
fn base64_round_trip_of_a_chunk_payload() {
    let payload: Vec<u8> = (0u16..=255).map(|b| b as u8).collect();
    let mut file = PackageFile::new("pkg", 1024, 256);
    let ack = file.write_chunk(&url_safe(&payload), 2).unwrap();
    let write = ack.write.unwrap();
    assert_eq!(write.bytes, payload);
    assert_eq!(write.offset, 512);
}

#[test]
fn the_url_safe_alphabet_is_decoded() {
    let mut file = PackageFile::new("pkg", 4, 4);
    let ack = file.write_chunk("-_-_", 0).unwrap();
    assert_eq!(ack.write.unwrap().bytes, vec![0xfb, 0xff, 0xbf]);
}

#[test]
fn writing_a_chunk_twice_changes_nothing() {
    let mut file = PackageFile::new("pkg", 8, 4);
    let first = file.write_chunk(&url_safe(b"abcd"), 1).unwrap();
    assert!(first.write.is_some());
    let again = file.write_chunk(&url_safe(b"abcd"), 1).unwrap();
    assert_eq!(again.write, None);
    assert!(again.chunks.contains(&1));
    assert_eq!(again.chunks, first.chunks);
    let other = file.write_chunk(&url_safe(b"wxyz"), 1).unwrap();
    assert_eq!(other.write, None);
    assert_eq!(other.chunks, vec![1]);
}

#[test]
fn a_chunk_beyond_the_package_is_rejected() {
    let mut file = PackageFile::new("pkg", 5, 2);
    assert_eq!(
        file.write_chunk("AA", 3),
        Err(Error::ChunkOutOfBounds("pkg".to_string()))
    );
    assert_eq!(
        file.write_chunk("AA", u64::MAX),
        Err(Error::ChunkOutOfBounds("pkg".to_string()))
    );
    assert!(file.write_chunk("AA", 2).is_ok());
    assert_eq!(file.transferred_chunks(), vec![2]);
}

#[test]
fn a_package_with_chunks_of_no_size_takes_no_chunk() {
    let mut file = PackageFile::new("pkg", 5, 0);
    assert_eq!(
        file.write_chunk("AA", 0),
        Err(Error::ChunkOutOfBounds("pkg".to_string()))
    );
    assert!(!file.finish());
    let mut empty = PackageFile::new("pkg", 0, 0);
    assert!(empty.finish());
}

#[test]
fn invalid_base64_is_rejected_and_leaves_the_transfer_intact() {
    let mut file = PackageFile::new("pkg", 8, 4);
    file.write_chunk("AAAA", 0).unwrap();
    match file.write_chunk("!!!!", 1) {
        Err(Error::DecodeError(text)) => assert!(text.contains("Invalid character")),
        other => panic!("unexpected: {:?}", other),
    }
    match file.write_chunk("A", 1) {
        Err(Error::DecodeError(text)) => assert!(text.contains("Invalid length")),
        other => panic!("unexpected: {:?}", other),
    }
    assert_eq!(file.transferred_chunks(), vec![0]);
    assert!(file.write_chunk("AAAA", 1).is_ok());
}

#[test]
fn a_transfer_is_complete_when_every_chunk_has_arrived() {
    let mut file = PackageFile::new("pkg", 5, 2);
    file.write_chunk("AA", 0).unwrap();
    file.write_chunk("AA", 1).unwrap();
    assert!(!file.finish());
    assert!(file.is_finished());
    file.write_chunk("AA", 2).unwrap();
    assert!(file.finish());
}

#[test]
fn starting_anew_gives_up_what_had_arrived() {
    let mut file = PackageFile::new("pkg", 4, 2);
    file.write_chunk("AA", 0).unwrap();
    file.finish();
    file.start(3, 9);
    assert_eq!(file.chunk_size(), 3);
    assert_eq!(file.total_size(), 9);
    assert!(!file.is_finished());
    assert_eq!(file.transferred_chunks(), Vec::<u64>::new());
    assert!(file.write_chunk("AA", 2).is_ok());
}

#[test]
fn applying_a_write_fills_the_gap_with_zeros() {
    let mut image = vec![1u8, 2];
    ChunkWrite { offset: 4, bytes: vec![9, 8] }.apply(&mut image);
    assert_eq!(image, vec![1, 2, 0, 0, 9, 8]);
    ChunkWrite { offset: 1, bytes: vec![7] }.apply(&mut image);
    assert_eq!(image, vec![1, 7, 0, 0, 9, 8]);
    ChunkWrite { offset: 100, bytes: vec![] }.apply(&mut image);
    assert_eq!(image, vec![1, 7, 0, 0, 9, 8]);
}

#[test]
fn reassembly_of_chunks_that_arrive_out_of_order() {
    let mut transfers = Transfers::new("/var/sota".to_string());
    let path = transfers.start(&pkg("P"), 5, 2);
    assert_eq!(path, Ok("/var/sota/P-1.0".to_string()));
    let mut image: Vec<u8> = Vec::new();
    for (index, text) in [(0u64, "AA"), (2, "CC"), (1, "BB")] {
        let ack = transfers.write_chunk(&pkg("P"), index, text).unwrap();
        ack.write.unwrap().apply(&mut image);
    }
    assert_eq!(transfers.finish(&pkg("P")), Ok("/var/sota/P-1.0".to_string()));
    assert_eq!(image, vec![0x00, 0, 0x04, 0, 0x08]);
    assert!(image.len() >= 5);
    assert!(transfers.contains(&pkg("P")));
}

#[test]
fn the_image_of_full_chunks_is_the_package() {
    let package: Vec<u8> = (0u8..10).collect();
    let mut file = PackageFile::new("pkg", 10, 4);
    let mut image: Vec<u8> = Vec::new();
    for index in [2u64, 0, 1] {
        let from = (index * 4) as usize;
        let to = std::cmp::min(from + 4, package.len());
        let ack = file.write_chunk(&url_safe(&package[from..to]), index).unwrap();
        ack.write.unwrap().apply(&mut image);
    }
    assert!(file.finish());
    assert_eq!(image, package);
}

#[test]
fn finishing_too_early_is_an_incomplete_transfer() {
    let mut transfers = Transfers::new("/tmp".to_string());
    transfers.start(&pkg("P"), 5, 2).unwrap();
    transfers.write_chunk(&pkg("P"), 0, "AA").unwrap();
    assert_eq!(
        transfers.finish(&pkg("P")),
        Err(Error::IncompleteTransfer("P-1.0".to_string()))
    );
    assert!(transfers.contains(&pkg("P")));
}

#[test]
fn a_package_without_a_transfer_is_unknown() {
    let mut transfers = Transfers::new("/tmp".to_string());
    assert_eq!(
        transfers.write_chunk(&pkg("P"), 0, "AA"),
        Err(Error::UnknownTransfer("P-1.0".to_string()))
    );
    assert_eq!(transfers.finish(&pkg("P")), Err(Error::UnknownTransfer("P-1.0".to_string())));
    assert_eq!(transfers.abort(&pkg("P")), None);
    assert!(!transfers.remove(&pkg("P")));
    assert_eq!(transfers.len(), 0);
}

#[test]
fn aborting_drops_the_transfer_and_names_its_file() {
    let mut transfers = Transfers::new("/tmp".to_string());
    transfers.start(&pkg("P"), 5, 2).unwrap();
    transfers.start(&pkg("Q"), 5, 2).unwrap();
    assert_eq!(transfers.len(), 2);
    assert_eq!(transfers.abort(&pkg("P")), Some("/tmp/P-1.0".to_string()));
    assert!(!transfers.contains(&pkg("P")));
    assert!(transfers.contains(&pkg("Q")));
    assert_eq!(transfers.len(), 1);
}

#[test]
fn a_failed_transfer_leaves_the_others_alone() {
    let mut transfers = Transfers::new("/tmp".to_string());
    transfers.start(&pkg("P"), 4, 2).unwrap();
    transfers.start(&pkg("Q"), 4, 2).unwrap();
    transfers.write_chunk(&pkg("Q"), 0, "AA").unwrap();
    assert!(transfers.write_chunk(&pkg("P"), 0, "!!").is_err());
    let ack = transfers.write_chunk(&pkg("Q"), 1, "AA").unwrap();
    assert_eq!(ack.chunks, vec![0, 1]);
    assert!(transfers.finish(&pkg("Q")).is_ok());
}

#[test]
fn starting_a_transfer_again_begins_it_anew() {
    let mut transfers = Transfers::new("/tmp".to_string());
    transfers.start(&pkg("P"), 4, 2).unwrap();
    transfers.write_chunk(&pkg("P"), 0, "AA").unwrap();
    transfers.start(&pkg("P"), 4, 2).unwrap();
    assert_eq!(transfers.len(), 1);
    let ack = transfers.write_chunk(&pkg("P"), 1, "AA").unwrap();
    assert_eq!(ack.chunks, vec![1]);
}

#[test]
fn two_packages_with_one_label_do_not_share_a_transfer() {
    let first = Package { name: "a-b".to_string(), version: "c".to_string() };
    let second = Package { name: "a".to_string(), version: "b-c".to_string() };
    assert_eq!(first.file_name(), second.file_name());

    let mut transfers = Transfers::new("/tmp".to_string());
    assert_eq!(transfers.start(&first, 4, 2), Ok("/tmp/a-b-c".to_string()));
    transfers.write_chunk(&first, 0, "AA").unwrap();
    assert!(transfers.contains(&first));
    assert!(!transfers.contains(&second));

    assert_eq!(transfers.start(&second, 8, 2), Err(Error::IoError("/tmp/a-b-c".to_string())));
    assert_eq!(
        transfers.write_chunk(&second, 1, "AA"),
        Err(Error::UnknownTransfer("a-b-c".to_string()))
    );
    assert_eq!(transfers.finish(&second), Err(Error::UnknownTransfer("a-b-c".to_string())));
    assert_eq!(transfers.abort(&second), None);
    assert!(!transfers.remove(&second));
    assert_eq!(transfers.len(), 1);

    let ack = transfers.write_chunk(&first, 1, "AA").unwrap();
    assert_eq!(ack.chunks, vec![0, 1]);
    assert_eq!(transfers.finish(&first), Ok("/tmp/a-b-c".to_string()));

    assert!(transfers.remove(&first));
    assert_eq!(transfers.start(&second, 8, 2), Ok("/tmp/a-b-c".to_string()));
    assert!(transfers.contains(&second));
    assert!(!transfers.contains(&first));
}

#[test]
fn base64_round_trip_of_payloads_of_every_length() {
    let mut seed: u64 = 7;
    for len in 1usize..=96 {
        let payload: Vec<u8> = (0..len)
            .map(|_| {
                seed = seed.wrapping_mul(6364136223846793005).wrapping_add(1442695040888963407);
                (seed >> 56) as u8
            })
            .collect();
        let mut file = PackageFile::new("pkg", 1024, 128);
        let ack = file.write_chunk(&url_safe(&payload), 3).unwrap();
        let write = ack.write.unwrap();
        assert_eq!(write.bytes, payload);
        assert_eq!(write.offset, 384);
        assert_eq!(ack.chunks, vec![3]);
    }
}

#[test]
fn base64_round_trip_of_an_empty_payload() {
    let mut file = PackageFile::new("pkg", 8, 4);
    let ack = file.write_chunk(&url_safe(b""), 1).unwrap();
    assert_eq!(ack.write, Some(ChunkWrite { offset: 4, bytes: Vec::new() }));
    assert_eq!(ack.chunks, vec![1]);
}
