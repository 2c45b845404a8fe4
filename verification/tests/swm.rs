use sota_client::datatype::config::DBusConfiguration;
use sota_client::datatype::report::{
    InstalledFirmware, InstalledPackage, InstalledSoftware, OperationResult, UpdateReport,
    UpdateResultCode,
};
use sota_client::datatype::Error;
use sota_client::event::inbound::{
    DownloadComplete, GetInstalledSoftware, InboundEvent, UpdateAvailable,
};
use sota_client::event::outbound::OutBoundEvent;
use sota_client::event::Event;
use sota_client::genivi::{answered, handle, Forward};
use sota_client::remote::UpstreamCall;
use sota_client::swm::{
    incoming, initiate_download, installed_software, send_download_complete, send_get_installed_software,
    send_update_available, update_report, MessageItem, MethodCall,
};

fn gen_cfg() -> DBusConfiguration {
    DBusConfiguration {
        name: "org.genivi.sota_client".to_string(),
        path: "/org/genivi/sota_client".to_string(),
        interface: "org.genivi.sota_client".to_string(),
        software_manager: "org.genivi.software_loading_manager".to_string(),
        software_manager_path: "/org/genivi/software_loading_manager".to_string(),
        timeout: 20,
    }
}

fn call(member: &str, args: Vec<MessageItem>) -> MethodCall {
    MethodCall {
        destination: "org.genivi.software_loading_manager".to_string(),
        path: "/org/genivi/software_loading_manager".to_string(),
        interface: "org.genivi.software_loading_manager".to_string(),
        member: member.to_string(),
        args,
    }
}

fn text(s: &str) -> MessageItem {
    MessageItem::Str(s.to_string())
}

fn package_item(i: u64) -> MessageItem {
    MessageItem::Struct(vec![
        text(&format!("id-{}", i)),
        text(&format!("name-{}", i)),
        text(&format!("description {}", i)),
        MessageItem::UInt64(i),
    ])
}

fn package_of(i: u64) -> InstalledPackage {
    InstalledPackage {
        package_id: format!("id-{}", i),
        name: format!("name-{}", i),
        description: format!("description {}", i),
        last_modified: i,
    }
}

#[test]
fn it_sends_update_available() {
    let cfg = gen_cfg();
    let offered = send_update_available(
        &cfg,
        UpdateAvailable {
            update_id: "12345".to_string(),
            signature: "12345".to_string(),
            name: "test-update".to_string(),
            description: "test-update-desc".to_string(),
            request_confirmation: false,
            size: 1024,
        },
    );
    assert_eq!(
        offered,
        call(
            "updateAvailable",
            vec![text("12345"), text("12345"), text("test-update-desc"), MessageItem::Bool(false)]
        )
    );
    let answer = initiate_download(&vec![text("12345")]).unwrap();
    match answer {
        OutBoundEvent::InitiateDownload(_) => {
            let complete = send_download_complete(
                &cfg,
                DownloadComplete {
                    update_image: "/home/jerry/sota/client-device/sample_update.upd".to_string(),
                    signature: "1234".to_string(),
                },
            );
            assert_eq!(
                complete,
                call(
                    "downloadComplete",
                    vec![text("/home/jerry/sota/client-device/sample_update.upd"), text("1234")]
                )
            );
        }
        OutBoundEvent::AbortDownload(_) => panic!("AbortDownload"),
        OutBoundEvent::UpdateReport(_) => panic!("UpdateReport"),
    }
}

#[test]
fn it_sets_a_valid_notify_signature() {
    let conf = gen_cfg();
    let offered = send_update_available(
        &conf,
        UpdateAvailable {
            update_id: "u".to_string(),
            signature: "s".to_string(),
            name: "n".to_string(),
            description: "d".to_string(),
            request_confirmation: true,
            size: 500,
        },
    );
    assert_eq!(offered.member, "updateAvailable");
    assert_eq!(offered.args.len(), 4);
    assert!(matches!(offered.args[0], MessageItem::Str(_)));
    assert!(matches!(offered.args[1], MessageItem::Str(_)));
    assert!(matches!(offered.args[2], MessageItem::Str(_)));
    assert_eq!(offered.args[3], MessageItem::Bool(true));
}

#[test]
fn it_sets_a_valid_download_complete_signature() {
    let conf = gen_cfg();
    let complete = send_download_complete(
        &conf,
        DownloadComplete { update_image: "image".to_string(), signature: "sig".to_string() },
    );
    assert_eq!(complete.member, "downloadComplete");
    assert_eq!(complete.args, vec![text("image"), text("sig")]);
}

#[test]
fn it_successfully_parses_a_valid_report() {
    let mut packages = Vec::new();
    let mut package_items = Vec::new();
    for i in 1..20 {
        package_items.push(package_item(i));
        packages.push(package_of(i));
    }
    let args = vec![MessageItem::Array(package_items), MessageItem::Array(Vec::new())];

    let decoded = installed_software(&args).unwrap();
    assert!(!decoded.packages.is_empty());
    assert_eq!(decoded.packages, packages);
    assert!(decoded.firmware.is_empty());
}

#[test]
fn the_question_for_installed_software() {
    let asked = send_get_installed_software(
        &gen_cfg(),
        GetInstalledSoftware { include_packages: true, include_module_firmware: false },
    );
    assert_eq!(
        asked,
        call("getInstalledSoftware", vec![MessageItem::Bool(true), MessageItem::Bool(false)])
    );
}

#[test]
fn installed_software_is_read_by_position() {
    let firmware = MessageItem::Struct(vec![text("ecu"), text("fw-1"), MessageItem::UInt64(3)]);
    let reply = vec![
        MessageItem::Array(vec![package_item(1)]),
        MessageItem::Array(vec![firmware]),
        text("ignored"),
    ];
    assert_eq!(
        installed_software(&reply),
        Ok(InstalledSoftware {
            packages: vec![package_of(1)],
            firmware: vec![InstalledFirmware {
                module: "ecu".to_string(),
                firmware_id: "fw-1".to_string(),
                last_modified: 3,
            }],
        })
    );
}

#[test]
fn a_reply_that_does_not_read_is_an_error() {
    let missing = Error::ParseError("missing argument".to_string());
    let malformed = Error::ParseError("malformed argument".to_string());
    assert_eq!(installed_software(&Vec::new()), Err(missing.clone()));
    assert_eq!(installed_software(&vec![MessageItem::Array(Vec::new())]), Err(missing.clone()));
    assert_eq!(
        installed_software(&vec![text("x"), MessageItem::Array(Vec::new())]),
        Err(malformed.clone())
    );
    let short = MessageItem::Struct(vec![text("id"), text("name"), text("description")]);
    assert_eq!(
        installed_software(&vec![MessageItem::Array(vec![short]), MessageItem::Array(Vec::new())]),
        Err(malformed.clone())
    );
    let wrong = MessageItem::Struct(vec![text("ecu"), text("fw"), MessageItem::UInt32(3)]);
    assert_eq!(
        installed_software(&vec![MessageItem::Array(Vec::new()), MessageItem::Array(vec![wrong])]),
        Err(malformed.clone())
    );
    assert_eq!(initiate_download(&Vec::new()), Err(missing.clone()));
    assert_eq!(initiate_download(&vec![MessageItem::Bool(true)]), Err(malformed.clone()));
    assert_eq!(update_report(&vec![text("id")]), Err(missing));
    assert_eq!(update_report(&vec![text("id"), text("results")]), Err(malformed));
}

#[test]
fn an_update_report_is_read() {
    let result = |id: &str, code: u32, text_: &str| {
        MessageItem::Struct(vec![text(id), MessageItem::UInt32(code), text(text_)])
    };
    let args = vec![
        text("update"),
        MessageItem::Array(vec![result("a", 0, "fine"), result("b", 19, "broken")]),
    ];
    assert_eq!(
        update_report(&args),
        Ok(OutBoundEvent::UpdateReport(UpdateReport {
            update_id: "update".to_string(),
            operation_results: vec![
                OperationResult {
                    id: "a".to_string(),
                    result_code: UpdateResultCode::OK,
                    result_text: "fine".to_string(),
                },
                OperationResult {
                    id: "b".to_string(),
                    result_code: UpdateResultCode::GENERAL_ERROR,
                    result_text: "broken".to_string(),
                },
            ],
        }))
    );
    let unknown = vec![text("update"), MessageItem::Array(vec![result("a", 20, "?")])];
    assert_eq!(
        update_report(&unknown),
        Err(Error::ParseError("malformed argument".to_string()))
    );
}

#[test]
fn the_bridge_forwards_each_event() {
    let cfg = gen_cfg();
    let complete =
        DownloadComplete { update_image: "image".to_string(), signature: "sig".to_string() };
    assert_eq!(
        handle(&cfg, Event::Inbound(InboundEvent::DownloadComplete(complete))),
        Forward::Tell(call("downloadComplete", vec![text("image"), text("sig")]))
    );
    let question = GetInstalledSoftware { include_packages: true, include_module_firmware: true };
    assert_eq!(
        handle(&cfg, Event::Inbound(InboundEvent::GetInstalledSoftware(question))),
        Forward::Ask {
            call: call(
                "getInstalledSoftware",
                vec![MessageItem::Bool(true), MessageItem::Bool(true)]
            ),
            timeout: 20,
        }
    );
    assert_eq!(
        handle(&cfg, Event::OutBound(OutBoundEvent::InitiateDownload("7".to_string()))),
        Forward::Upstream(UpstreamCall::StartDownload("7".to_string()))
    );
    assert_eq!(
        handle(&cfg, Event::OutBound(OutBoundEvent::AbortDownload("7".to_string()))),
        Forward::Note
    );
    let report = UpdateReport::single("7".to_string(), UpdateResultCode::OK, String::new());
    assert_eq!(
        handle(&cfg, Event::OutBound(OutBoundEvent::UpdateReport(report.clone()))),
        Forward::Upstream(UpstreamCall::UpdateReport(report))
    );
}

#[test]
fn a_question_that_times_out_is_an_error_and_nothing_else() {
    let timeout = Error::IpcError("no reply within 20 ms".to_string());
    assert_eq!(answered(Err(timeout.clone())), Err(timeout));
    assert_eq!(
        answered(Ok(Vec::new())),
        Err(Error::ParseError("missing argument".to_string()))
    );
    assert_eq!(
        answered(Ok(vec![MessageItem::Array(vec![package_item(2)]), MessageItem::Array(Vec::new())])),
        Ok(UpstreamCall::InstalledSoftware(InstalledSoftware {
            packages: vec![package_of(2)],
            firmware: Vec::new(),
        }))
    );
}

#[test]
fn events_of_the_client_cross_the_bridge() {
    let complete =
        DownloadComplete { update_image: "image".to_string(), signature: "sig".to_string() };
    assert_eq!(
        Event::for_bridge(sota_client::datatype::Event::DownloadComplete(complete.clone())),
        Some(Event::Inbound(InboundEvent::DownloadComplete(complete)))
    );
    assert_eq!(Event::for_bridge(sota_client::datatype::Event::OK), None);
    assert_eq!(Event::for_bridge(sota_client::datatype::Event::NotAuthenticated), None);
}

#[test]
fn it_returns_a_empty_list_for_invalid_reports() {
    let read = installed_software(&Vec::new());
    assert_eq!(read, Err(Error::ParseError("missing argument".to_string())));
    let decoded = read.map(|software| software.packages).unwrap_or_default();
    assert!(decoded.is_empty());
}

#[test]
fn calls_of_the_software_manager_are_read_by_the_name_of_their_method() {
    let args = vec![text("update-1")];
    assert_eq!(
        incoming("initiateDownload", &args),
        Some(Ok(OutBoundEvent::InitiateDownload("update-1".to_string())))
    );
    assert_eq!(incoming("initiateDownload", &args), Some(initiate_download(&args)));
    let result = MessageItem::Struct(vec![text("op"), MessageItem::UInt32(4), text("failed")]);
    let args = vec![text("update-1"), MessageItem::Array(vec![result])];
    assert_eq!(incoming("updateReport", &args), Some(update_report(&args)));
    assert!(matches!(incoming("updateReport", &args), Some(Ok(OutBoundEvent::UpdateReport(_)))));
    assert_eq!(
        incoming("updateReport", &Vec::new()),
        Some(Err(Error::ParseError("missing argument".to_string())))
    );
    assert_eq!(
        incoming("initiateDownload", &vec![MessageItem::Bool(true)]),
        Some(Err(Error::ParseError("malformed argument".to_string())))
    );
}

#[test]
fn a_method_that_the_client_does_not_offer_is_not_read() {
    let args = vec![text("update-1")];
    assert_eq!(incoming("initiate_download", &args), None);
    assert_eq!(incoming("InitiateDownload", &args), None);
    assert_eq!(incoming("", &args), None);
    assert_eq!(incoming("getInstalledSoftware", &args), None);
}
