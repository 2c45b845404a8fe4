use rustc_serialize::base64::{CharacterSet, Config, Newline, ToBase64};
use sota_client::datatype::{Error, Event, Package, PendingUpdateRequest};
use sota_client::event::inbound::{DownloadComplete, GetInstalledSoftware};
use sota_client::handler::{
    service_of, written, AbortParams, Acknowledgement, ChunkParams, Failed, FileEffect,
    FinishParams, HandleMessageParams, Handled, NotifyParams, ReportParams, Service, StartParams,
};
use sota_client::message::{BackendServices, ChunkReceived, PackageId};
use sota_client::persistence::{ChunkWrite, Transfers};

struct Numbers(u64);

impl Numbers {
    fn next(&mut self) -> u64 {
        self.0 = self.0.wrapping_mul(6364136223846793005).wrapping_add(1442695040888963407);
        self.0 >> 33
    }

    fn ascii(&mut self, len: usize) -> String {
        let letters = b"abcdefghijklmnopqrstuvwxyzABCDEFGHIJKLMNOPQRSTUVWXYZ0123456789";
        (0..len).map(|_| letters[(self.next() % 62) as usize] as char).collect()
    }
}

fn generate_package(numbers: &mut Numbers, i: usize) -> PackageId {
    Package { name: numbers.ascii(i), version: numbers.ascii(i) }
}

fn new_chunk(numbers: &mut Numbers, i: usize, package: PackageId) -> ChunkParams {
    let msg = numbers.ascii(i);
    let b64_msg = msg.as_bytes().to_base64(Config {
        char_set: CharacterSet::UrlSafe,
        newline: Newline::LF,
        pad: true,
        line_length: None,
    });
    ChunkParams { bytes: b64_msg, index: i as u64, package }
}

fn pkg(version: &str) -> Package {
    Package { name: "pkg".to_string(), version: version.to_string() }
}

fn services() -> BackendServices {
    let mut services = BackendServices::new();
    services.ack = "genivi.org/backend/sota/ack".to_string();
    services
}

#[test]
fn it_returns_true_for_existing_transfers() {
    let mut numbers = Numbers(1);
    for i in 1..20 {
        let package = generate_package(&mut numbers, i);
        let mut transfers = Transfers::new("/tmp/sota".to_string());
        transfers.start(&package, 32 * 32, 32).unwrap();
        let services = BackendServices::new();

        let chunk = new_chunk(&mut numbers, i, package);
        assert!(chunk.handle(&services, &mut transfers, "ignored", "").is_ok());
    }
}

#[test]
fn it_returns_false_for_nonexisting_transfers() {
    let mut numbers = Numbers(2);
    for i in 1..20 {
        let package = generate_package(&mut numbers, i);
        let mut transfers = Transfers::new("".to_string());
        let services = BackendServices::new();

        let chunk = new_chunk(&mut numbers, i, package);
        assert!(!chunk.handle(&services, &mut transfers, "ignored", "").is_ok());
    }
}

#[test]
fn a_chunk_for_an_unknown_package_creates_nothing() {
    let package = Package { name: "pkg".to_string(), version: "1".to_string() };
    let mut transfers = Transfers::new("/tmp".to_string());
    let chunk = ChunkParams { bytes: "AAAA".to_string(), index: 0, package };
    assert_eq!(
        chunk.handle(&services(), &mut transfers, "http://rvi", "vin"),
        Err(Error::UnknownTransfer("pkg-1".to_string()))
    );
    assert_eq!(transfers.len(), 0);
    assert!(!transfers.contains(&pkg("1")));
}

#[test]
fn a_chunk_is_written_and_acknowledged() {
    let package = Package { name: "pkg".to_string(), version: "1".to_string() };
    let mut transfers = Transfers::new("/tmp".to_string());
    transfers.start(&pkg("1"), 8, 4).unwrap();
    let chunk = ChunkParams { bytes: "YWJjZA==".to_string(), index: 1, package: package.clone() };
    let handled = chunk.handle(&services(), &mut transfers, "http://rvi", "V1N").unwrap();
    assert_eq!(handled.event, None);
    assert_eq!(
        handled.file,
        Some(FileEffect::Write {
            path: "/tmp/pkg-1".to_string(),
            write: ChunkWrite { offset: 4, bytes: b"abcd".to_vec() },
        })
    );
    assert_eq!(
        handled.ack,
        Some(Acknowledgement {
            url: "http://rvi".to_string(),
            service: "genivi.org/backend/sota/ack".to_string(),
            message: ChunkReceived { package: package.clone(), chunks: vec![1], vin: "V1N".to_string() },
        })
    );
    let again = chunk.handle(&services(), &mut transfers, "http://rvi", "V1N").unwrap();
    assert_eq!(again.file, None);
    assert_eq!(again.ack, handled.ack);
}

#[test]
fn a_bad_chunk_is_not_acknowledged() {
    let package = Package { name: "pkg".to_string(), version: "1".to_string() };
    let mut transfers = Transfers::new("/tmp".to_string());
    transfers.start(&pkg("1"), 8, 4).unwrap();
    let beyond = ChunkParams { bytes: "AAAA".to_string(), index: 2, package: package.clone() };
    assert_eq!(
        beyond.handle(&services(), &mut transfers, "u", "v"),
        Err(Error::ChunkOutOfBounds("pkg-1".to_string()))
    );
    let garbled = ChunkParams { bytes: "A".to_string(), index: 0, package };
    assert!(matches!(
        garbled.handle(&services(), &mut transfers, "u", "v"),
        Err(Error::DecodeError(_))
    ));
}

#[test]
fn a_start_begins_the_transfer() {
    let package = Package { name: "pkg".to_string(), version: "2".to_string() };
    let mut transfers = Transfers::new("/var/sota".to_string());
    let start = StartParams {
        package: package.clone(),
        chunkscount: 3,
        chunk_size: 4,
        checksum: "abc".to_string(),
    };
    let handled = start.handle(&services(), &mut transfers, "http://rvi", "V1N").unwrap();
    assert_eq!(handled.event, None);
    assert_eq!(handled.file, Some(FileEffect::Create("/var/sota/pkg-2".to_string())));
    assert_eq!(
        handled.ack,
        Some(Acknowledgement {
            url: "http://rvi".to_string(),
            service: "genivi.org/backend/sota/ack".to_string(),
            message: ChunkReceived { package, chunks: Vec::new(), vin: "V1N".to_string() },
        })
    );
    assert!(transfers.contains(&pkg("2")));
    assert!(transfers.write_chunk(&pkg("2"), 2, "AAAA").is_ok());
    assert!(transfers.write_chunk(&pkg("2"), 3, "AAAA").is_err());
}

#[test]
fn a_start_of_a_package_too_large_is_turned_down() {
    let package = Package { name: "pkg".to_string(), version: "2".to_string() };
    let mut transfers = Transfers::new("/var/sota".to_string());
    let start = StartParams {
        package,
        chunkscount: u64::MAX,
        chunk_size: 2,
        checksum: String::new(),
    };
    assert!(matches!(
        start.handle(&services(), &mut transfers, "u", "v"),
        Err(Error::ParseError(_))
    ));
    assert_eq!(transfers.len(), 0);
}

#[test]
fn a_finish_announces_the_package() {
    let package = Package { name: "pkg".to_string(), version: "3".to_string() };
    let mut transfers = Transfers::new("/var/sota".to_string());
    transfers.start(&pkg("3"), 4, 4).unwrap();
    let finish = FinishParams { package, signature: "signed".to_string() };
    assert_eq!(
        finish.handle(&services(), &mut transfers, "u", "v"),
        Err(Error::IncompleteTransfer("pkg-3".to_string()))
    );
    transfers.write_chunk(&pkg("3"), 0, "AAAA").unwrap();
    let handled = finish.handle(&services(), &mut transfers, "u", "v").unwrap();
    assert_eq!(
        handled.event,
        Some(Event::DownloadComplete(DownloadComplete {
            update_image: "/var/sota/pkg-3".to_string(),
            signature: "signed".to_string(),
        }))
    );
    assert_eq!(handled.file, None);
    assert_eq!(handled.ack, None);
    assert!(transfers.contains(&pkg("3")));
}

#[test]
fn an_abort_drops_the_transfer() {
    let package = Package { name: "pkg".to_string(), version: "4".to_string() };
    let mut transfers = Transfers::new("/var/sota".to_string());
    transfers.start(&pkg("4"), 4, 4).unwrap();
    let abort = AbortParams { package };
    let handled = abort.handle(&services(), &mut transfers, "u", "v").unwrap();
    assert_eq!(handled.file, Some(FileEffect::Delete("/var/sota/pkg-4".to_string())));
    assert_eq!(handled.event, None);
    assert!(!transfers.contains(&pkg("4")));
    assert_eq!(
        abort.handle(&services(), &mut transfers, "u", "v"),
        Err(Error::UnknownTransfer("pkg-4".to_string()))
    );
}

#[test]
fn a_report_asks_for_the_installed_packages() {
    let mut transfers = Transfers::new("/var/sota".to_string());
    let handled = ReportParams.handle(&services(), &mut transfers, "u", "v").unwrap();
    assert_eq!(
        handled.event,
        Some(Event::GetInstalledSoftware(GetInstalledSoftware {
            include_packages: true,
            include_module_firmware: false,
        }))
    );
    assert_eq!(handled.file, None);
    assert_eq!(handled.ack, None);
}

#[test]
fn a_notify_announces_the_updates() {
    let updates = vec![PendingUpdateRequest {
        requestId: "someid".to_string(),
        installPos: 0,
        packageId: Package { name: "fake-pkg".to_string(), version: "0.1.1".to_string() },
        createdAt: "2010-01-01".to_string(),
    }];
    let mut transfers = Transfers::new("/var/sota".to_string());
    let handled = NotifyParams { updates: updates.clone() }
        .handle(&services(), &mut transfers, "u", "v")
        .unwrap();
    assert_eq!(handled.event, Some(Event::UpdatesAvailable(updates)));
}

#[test]
fn services_are_told_by_the_last_segment_of_their_name() {
    assert_eq!(service_of("notify"), Some(Service::Notify));
    assert_eq!(service_of("start"), Some(Service::Start));
    assert_eq!(service_of("chunk"), Some(Service::Chunk));
    assert_eq!(service_of("finish"), Some(Service::Finish));
    assert_eq!(service_of("report"), Some(Service::Report));
    assert_eq!(service_of("abort"), Some(Service::Abort));
    assert_eq!(service_of("genivi.org/device/vin/sota/chunk"), Some(Service::Chunk));
    assert_eq!(service_of("/start"), Some(Service::Start));
    assert_eq!(service_of("sota/ä/finish"), Some(Service::Finish));
}

#[test]
fn other_names_stand_for_no_service() {
    assert_eq!(service_of(""), None);
    assert_eq!(service_of("start/"), None);
    assert_eq!(service_of("Start"), None);
    assert_eq!(service_of("restart"), None);
    assert_eq!(service_of("start/other"), None);
    assert_eq!(service_of("ack"), None);
}

#[test]
fn a_write_that_was_made_leaves_the_message_as_it_was() {
    let mut numbers = Numbers(5);
    let package = generate_package(&mut numbers, 4);
    let mut transfers = Transfers::new("/tmp/sota".to_string());
    transfers.start(&package, 64, 32).unwrap();
    let chunk = ChunkParams { bytes: "QUJD".to_string(), index: 1, package: package.clone() };
    let handled = chunk.handle(&services(), &mut transfers, "http://peer", "vin").unwrap();
    let settled = written(&mut transfers, &package, handled.clone(), Ok(()));
    assert_eq!(settled, Ok(handled));
    assert!(transfers.contains(&package));
}

#[test]
fn a_write_that_failed_gives_the_transfer_up() {
    let mut numbers = Numbers(6);
    let package = generate_package(&mut numbers, 4);
    let other = generate_package(&mut numbers, 5);
    let mut transfers = Transfers::new("/tmp/sota".to_string());
    transfers.start(&package, 64, 32).unwrap();
    transfers.start(&other, 64, 32).unwrap();
    let chunk = ChunkParams { bytes: "QUJD".to_string(), index: 1, package: package.clone() };
    let handled = chunk.handle(&services(), &mut transfers, "http://peer", "vin").unwrap();
    let error = Error::IoError("No space left on device (os error 28)".to_string());
    let settled = written(&mut transfers, &package, handled, Err(error.clone()));
    assert_eq!(
        settled,
        Err(Failed {
            error: error.clone(),
            cleanup: Some(FileEffect::Delete(format!("/tmp/sota/{}", package.file_name()))),
        })
    );
    assert!(!transfers.contains(&package));
    assert!(transfers.contains(&other));

    let again = chunk.handle(&services(), &mut transfers, "http://peer", "vin");
    assert_eq!(again, Err(Error::UnknownTransfer(package.file_name())));
    let handled = Handled { event: None, file: None, ack: None };
    let settled = written(&mut transfers, &package, handled, Err(error.clone()));
    assert_eq!(settled, Err(Failed { error, cleanup: None }));
}

#[test]
fn a_start_does_not_take_the_scratch_file_of_another_package() {
    let first = Package { name: "a-b".to_string(), version: "c".to_string() };
    let second = Package { name: "a".to_string(), version: "b-c".to_string() };
    let mut transfers = Transfers::new("/tmp".to_string());
    let start = |package: &Package| StartParams {
        package: package.clone(),
        chunkscount: 2,
        chunk_size: 4,
        checksum: String::new(),
    };
    assert!(start(&first).handle(&services(), &mut transfers, "http://rvi", "vin").is_ok());
    assert_eq!(
        start(&second).handle(&services(), &mut transfers, "http://rvi", "vin"),
        Err(Error::IoError("/tmp/a-b-c".to_string()))
    );
    let chunk = ChunkParams { bytes: "AAAA".to_string(), index: 0, package: second.clone() };
    assert_eq!(
        chunk.handle(&services(), &mut transfers, "http://rvi", "vin"),
        Err(Error::UnknownTransfer("a-b-c".to_string()))
    );
    let finish = FinishParams { package: second.clone(), signature: String::new() };
    assert_eq!(
        finish.handle(&services(), &mut transfers, "http://rvi", "vin"),
        Err(Error::UnknownTransfer("a-b-c".to_string()))
    );
    let abort = AbortParams { package: second };
    assert_eq!(
        abort.handle(&services(), &mut transfers, "http://rvi", "vin"),
        Err(Error::UnknownTransfer("a-b-c".to_string()))
    );
    assert!(transfers.contains(&first));
    assert_eq!(transfers.len(), 1);
    assert!(start(&first).handle(&services(), &mut transfers, "http://rvi", "vin").is_ok());
    assert_eq!(transfers.len(), 1);
}
