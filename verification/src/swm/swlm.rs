//! The calls that go to the software manager, and the reading of what comes
//! back and of what the software manager calls in turn.
//!
//! Arguments are read by position. An argument that is missing or not of
//! the expected kind makes the whole message malformed; it is turned down
//! with an error, never half read.

use vstd::prelude::*;
use crate::datatype::config::DBusConfiguration;
use crate::datatype::error::Error;
use crate::datatype::report::{
    InstalledFirmware, InstalledPackage, InstalledSoftware, OperationResult, UpdateReport,
    UpdateResultCode,
};
use crate::event::inbound::{DownloadComplete, GetInstalledSoftware, UpdateAvailable};
use crate::event::outbound::OutBoundEvent;

verus! {

/// One argument of a message on the bus.
#[derive(Debug, PartialEq, Eq)]
pub enum MessageItem {
    Str(String),
    Bool(bool),
    Int32(i32),
    UInt32(u32),
    UInt64(u64),
    Array(Vec<MessageItem>),
    Struct(Vec<MessageItem>),
}

/// A call of a method over the bus.
#[derive(Debug, PartialEq, Eq)]
pub struct MethodCall {
    pub destination: String,
    pub path: String,
    pub interface: String,
    pub member: String,
    pub args: Vec<MessageItem>,
}

impl MethodCall {
    /// Whether this is the call of `member` on the software manager that
    /// `config` names, with the arguments `args`.
    pub open spec fn is_call(
        self,
        config: DBusConfiguration,
        member: Seq<char>,
        args: Seq<MessageItem>,
    ) -> bool {
        &&& self.destination == config.software_manager
        &&& self.path == config.software_manager_path
        &&& self.interface == config.software_manager
        &&& self.member@ == member
        &&& self.args@ == args
    }
}

fn method_call(config: &DBusConfiguration, member: &str, args: Vec<MessageItem>) -> (call:
    MethodCall)
    ensures
        call.is_call(*config, member@, args@),
{
    MethodCall {
        destination: config.software_manager.clone(),
        path: config.software_manager_path.clone(),
        interface: config.software_manager.clone(),
        member: String::from_str(member),
        args,
    }
}

/// The call that offers an update to the software manager.
pub fn send_update_available(config: &DBusConfiguration, e: UpdateAvailable) -> (call: MethodCall)
    ensures
        call.is_call(
            *config,
            "updateAvailable"@,
            seq![
                MessageItem::Str(e.update_id),
                MessageItem::Str(e.signature),
                MessageItem::Str(e.description),
                MessageItem::Bool(e.request_confirmation),
            ],
        ),
{
    let mut args: Vec<MessageItem> = Vec::new();
    args.push(MessageItem::Str(e.update_id));
    args.push(MessageItem::Str(e.signature));
    args.push(MessageItem::Str(e.description));
    args.push(MessageItem::Bool(e.request_confirmation));
    assert(args@ =~= seq![
        MessageItem::Str(e.update_id),
        MessageItem::Str(e.signature),
        MessageItem::Str(e.description),
        MessageItem::Bool(e.request_confirmation),
    ]);
    method_call(config, "updateAvailable", args)
}

/// The call that tells the software manager that a package lies ready.
pub fn send_download_complete(config: &DBusConfiguration, e: DownloadComplete) -> (call:
    MethodCall)
    ensures
        call.is_call(
            *config,
            "downloadComplete"@,
            seq![MessageItem::Str(e.update_image), MessageItem::Str(e.signature)],
        ),
{
    let mut args: Vec<MessageItem> = Vec::new();
    args.push(MessageItem::Str(e.update_image));
    args.push(MessageItem::Str(e.signature));
    assert(args@ =~= seq![MessageItem::Str(e.update_image), MessageItem::Str(e.signature)]);
    method_call(config, "downloadComplete", args)
}

/// The call that asks the software manager what is installed. Its answer
/// is read by `installed_software`.
pub fn send_get_installed_software(config: &DBusConfiguration, e: GetInstalledSoftware) -> (call:
    MethodCall)
    ensures
        call.is_call(
            *config,
            "getInstalledSoftware"@,
            seq![
                MessageItem::Bool(e.include_packages),
                MessageItem::Bool(e.include_module_firmware),
            ],
        ),
{
    let mut args: Vec<MessageItem> = Vec::new();
    args.push(MessageItem::Bool(e.include_packages));
    args.push(MessageItem::Bool(e.include_module_firmware));
    assert(args@ =~= seq![
        MessageItem::Bool(e.include_packages),
        MessageItem::Bool(e.include_module_firmware),
    ]);
    method_call(config, "getInstalledSoftware", args)
}

/// The package an argument stands for: a struct of its id, its name, its
/// description and the time it was last modified.
pub open spec fn as_package(item: MessageItem) -> Option<InstalledPackage> {
    match item {
        MessageItem::Struct(fields) => if fields@.len() == 4 {
            match (fields@[0], fields@[1], fields@[2], fields@[3]) {
                (
                    MessageItem::Str(package_id),
                    MessageItem::Str(name),
                    MessageItem::Str(description),
                    MessageItem::UInt64(last_modified),
                ) => Some(InstalledPackage { package_id, name, description, last_modified }),
                _ => None,
            }
        } else {
            None
        },
        _ => None,
    }
}

/// The firmware an argument stands for: a struct of the module, the id of
/// its firmware and the time it was last modified.
pub open spec fn as_firmware(item: MessageItem) -> Option<InstalledFirmware> {
    match item {
        MessageItem::Struct(fields) => if fields@.len() == 3 {
            match (fields@[0], fields@[1], fields@[2]) {
                (
                    MessageItem::Str(module),
                    MessageItem::Str(firmware_id),
                    MessageItem::UInt64(last_modified),
                ) => Some(InstalledFirmware { module, firmware_id, last_modified }),
                _ => None,
            }
        } else {
            None
        },
        _ => None,
    }
}

/// The result an argument stands for: a struct of the operation's id, the
/// number of its result code and its text.
pub open spec fn as_result(item: MessageItem) -> Option<OperationResult> {
    match item {
        MessageItem::Struct(fields) => if fields@.len() == 3 {
            match (fields@[0], fields@[1], fields@[2]) {
                (MessageItem::Str(id), MessageItem::UInt32(code), MessageItem::Str(result_text)) => {
                    if code < 20 {
                        Some(
                            OperationResult {
                                id,
                                result_code: code_of(code as nat),
                                result_text,
                            },
                        )
                    } else {
                        None
                    }
                },
                _ => None,
            }
        } else {
            None
        },
        _ => None,
    }
}

/// The result code that a number stands for.
pub open spec fn code_of(wire: nat) -> UpdateResultCode {
    choose|code: UpdateResultCode| code.wire() == wire
}

/// The packages that an array of arguments stands for, in order, or nothing as
/// soon as one argument does not read.
pub open spec fn as_packages(item: MessageItem) -> Option<Seq<InstalledPackage>> {
    match item {
        MessageItem::Array(items) => if forall|i: int|
            0 <= i < items@.len() ==> (#[trigger] as_package(items@[i])) is Some {
            Some(Seq::new(items@.len(), |i: int| as_package(items@[i])->0))
        } else {
            None
        },
        _ => None,
    }
}

/// The firmware that an array of arguments stands for, in order, or nothing as
/// soon as one argument does not read.
pub open spec fn as_firmwares(item: MessageItem) -> Option<Seq<InstalledFirmware>> {
    match item {
        MessageItem::Array(items) => if forall|i: int|
            0 <= i < items@.len() ==> (#[trigger] as_firmware(items@[i])) is Some {
            Some(Seq::new(items@.len(), |i: int| as_firmware(items@[i])->0))
        } else {
            None
        },
        _ => None,
    }
}

/// The results that an array of arguments stands for, in order, or nothing as
/// soon as one argument does not read.
pub open spec fn as_results(item: MessageItem) -> Option<Seq<OperationResult>> {
    match item {
        MessageItem::Array(items) => if forall|i: int|
            0 <= i < items@.len() ==> (#[trigger] as_result(items@[i])) is Some {
            Some(Seq::new(items@.len(), |i: int| as_result(items@[i])->0))
        } else {
            None
        },
        _ => None,
    }
}

/// What the answer to `getInstalledSoftware` stands for: the packages, then
/// the firmware.
pub open spec fn as_installed_software(reply: Seq<MessageItem>) -> Option<
    (Seq<InstalledPackage>, Seq<InstalledFirmware>),
> {
    if reply.len() < 2 {
        None
    } else {
        match (
            as_packages(reply[0]),
            as_firmwares(reply[1]),
        ) {
            (Some(packages), Some(firmware)) => Some((packages, firmware)),
            _ => None,
        }
    }
}

/// What the arguments of `updateReport` stand for: the id of the update,
/// then the results of its operations.
pub open spec fn as_update_report(args: Seq<MessageItem>) -> Option<(String, Seq<OperationResult>)> {
    if args.len() < 2 {
        None
    } else {
        match (args[0], as_results(args[1])) {
            (MessageItem::Str(update_id), Some(results)) => Some((update_id, results)),
            _ => None,
        }
    }
}

/// What the arguments of `initiateDownload` stand for: the id of the update.
pub open spec fn as_initiate_download(args: Seq<MessageItem>) -> Option<String> {
    if args.len() < 1 {
        None
    } else {
        match args[0] {
            MessageItem::Str(update_id) => Some(update_id),
            _ => None,
        }
    }
}

fn package(item: &MessageItem) -> (read: Option<InstalledPackage>)
    ensures
        read == as_package(*item),
{
    match item {
        MessageItem::Struct(fields) => {
            if fields.len() != 4 {
                return None;
            }
            match (&fields[0], &fields[1], &fields[2], &fields[3]) {
                (
                    MessageItem::Str(package_id),
                    MessageItem::Str(name),
                    MessageItem::Str(description),
                    MessageItem::UInt64(last_modified),
                ) => Some(
                    InstalledPackage {
                        package_id: package_id.clone(),
                        name: name.clone(),
                        description: description.clone(),
                        last_modified: *last_modified,
                    },
                ),
                _ => None,
            }
        },
        _ => None,
    }
}

fn firmware(item: &MessageItem) -> (read: Option<InstalledFirmware>)
    ensures
        read == as_firmware(*item),
{
    match item {
        MessageItem::Struct(fields) => {
            if fields.len() != 3 {
                return None;
            }
            match (&fields[0], &fields[1], &fields[2]) {
                (
                    MessageItem::Str(module),
                    MessageItem::Str(firmware_id),
                    MessageItem::UInt64(last_modified),
                ) => Some(
                    InstalledFirmware {
                        module: module.clone(),
                        firmware_id: firmware_id.clone(),
                        last_modified: *last_modified,
                    },
                ),
                _ => None,
            }
        },
        _ => None,
    }
}

fn result(item: &MessageItem) -> (read: Option<OperationResult>)
    ensures
        read == as_result(*item),
{
    match item {
        MessageItem::Struct(fields) => {
            if fields.len() != 3 {
                return None;
            }
            match (&fields[0], &fields[1], &fields[2]) {
                (MessageItem::Str(id), MessageItem::UInt32(code), MessageItem::Str(result_text)) => {
                    match UpdateResultCode::from_code(*code as u64) {
                        Some(result_code) => {
                            proof {
                                crate::datatype::report::wire_code_round_trip(
                                    result_code,
                                    code_of(*code as nat),
                                );
                            }
                            Some(
                                OperationResult {
                                    id: id.clone(),
                                    result_code,
                                    result_text: result_text.clone(),
                                },
                            )
                        },
                        None => None,
                    }
                },
                _ => None,
            }
        },
        _ => None,
    }
}

fn packages(item: &MessageItem) -> (read: Option<Vec<InstalledPackage>>)
    ensures
        match as_packages(*item) {
            Some(list) => read matches Some(read) && read@ == list,
            None => read is None,
        },
{
    match item {
        MessageItem::Array(items) => {
            let mut list: Vec<InstalledPackage> = Vec::new();
            let mut i: usize = 0;
            while i < items.len()
                invariant
                    *item == MessageItem::Array(*items),
                    i <= items.len(),
                    list@.len() == i,
                    forall|j: int| 0 <= j < i ==> (#[trigger] as_package(items@[j])) == Some(list@[j]),
                decreases items.len() - i,
            {
                match package(&items[i]) {
                    Some(value) => list.push(value),
                    None => {
                        assert(as_package(items@[i as int]) is None);
                        assert(!(forall|k: int|
                            0 <= k < items@.len() ==> (#[trigger] as_package(items@[k])) is Some));
                        return None;
                    },
                }
                i = i + 1;
            }
            assert(list@ =~= Seq::new(items@.len(), |i: int| as_package(items@[i])->0));
            Some(list)
        },
        _ => None,
    }
}

fn firmwares(item: &MessageItem) -> (read: Option<Vec<InstalledFirmware>>)
    ensures
        match as_firmwares(*item) {
            Some(list) => read matches Some(read) && read@ == list,
            None => read is None,
        },
{
    match item {
        MessageItem::Array(items) => {
            let mut list: Vec<InstalledFirmware> = Vec::new();
            let mut i: usize = 0;
            while i < items.len()
                invariant
                    *item == MessageItem::Array(*items),
                    i <= items.len(),
                    list@.len() == i,
                    forall|j: int|
                        0 <= j < i ==> (#[trigger] as_firmware(items@[j])) == Some(list@[j]),
                decreases items.len() - i,
            {
                match firmware(&items[i]) {
                    Some(value) => list.push(value),
                    None => {
                        assert(as_firmware(items@[i as int]) is None);
                        assert(!(forall|k: int|
                            0 <= k < items@.len() ==> (#[trigger] as_firmware(items@[k])) is Some));
                        return None;
                    },
                }
                i = i + 1;
            }
            assert(list@ =~= Seq::new(items@.len(), |i: int| as_firmware(items@[i])->0));
            Some(list)
        },
        _ => None,
    }
}

fn results(item: &MessageItem) -> (read: Option<Vec<OperationResult>>)
    ensures
        match as_results(*item) {
            Some(list) => read matches Some(read) && read@ == list,
            None => read is None,
        },
{
    match item {
        MessageItem::Array(items) => {
            let mut list: Vec<OperationResult> = Vec::new();
            let mut i: usize = 0;
            while i < items.len()
                invariant
                    *item == MessageItem::Array(*items),
                    i <= items.len(),
                    list@.len() == i,
                    forall|j: int| 0 <= j < i ==> (#[trigger] as_result(items@[j])) == Some(list@[j]),
                decreases items.len() - i,
            {
                match result(&items[i]) {
                    Some(value) => list.push(value),
                    None => {
                        assert(as_result(items@[i as int]) is None);
                        assert(!(forall|k: int|
                            0 <= k < items@.len() ==> (#[trigger] as_result(items@[k])) is Some));
                        return None;
                    },
                }
                i = i + 1;
            }
            assert(list@ =~= Seq::new(items@.len(), |i: int| as_result(items@[i])->0));
            Some(list)
        },
        _ => None,
    }
}

fn malformed(missing: bool) -> (error: Error)
    ensures
        error matches Error::ParseError(text) && text@ == if missing {
            "missing argument"@
        } else {
            "malformed argument"@
        },
{
    if missing {
        Error::ParseError(String::from_str("missing argument"))
    } else {
        Error::ParseError(String::from_str("malformed argument"))
    }
}

/// Reads the answer to `getInstalledSoftware`: the packages, then the
/// firmware.
pub fn installed_software(reply: &Vec<MessageItem>) -> (read: Result<InstalledSoftware, Error>)
    ensures
        match as_installed_software(reply@) {
            Some((packages, firmware)) => {
                &&& read matches Ok(software)
                &&& software.packages@ == packages
                &&& software.firmware@ == firmware
            },
            None => {
                &&& read matches Err(Error::ParseError(text))
                &&& text@ == if reply@.len() < 2 {
                    "missing argument"@
                } else {
                    "malformed argument"@
                }
            },
        },
{
    if reply.len() < 2 {
        return Err(malformed(true));
    }
    match (packages(&reply[0]), firmwares(&reply[1])) {
        (Some(packages), Some(firmware)) => Ok(InstalledSoftware { packages, firmware }),
        _ => Err(malformed(false)),
    }
}

/// Whether `read` is what the arguments of `initiateDownload` stand for: the
/// download of the update they name, or the reason why they do not read.
pub open spec fn reads_initiate_download(
    args: Seq<MessageItem>,
    read: Result<OutBoundEvent, Error>,
) -> bool {
    match as_initiate_download(args) {
        Some(update_id) => read == Ok::<OutBoundEvent, Error>(
            OutBoundEvent::InitiateDownload(update_id),
        ),
        None => {
            &&& read matches Err(Error::ParseError(text))
            &&& text@ == if args.len() < 1 {
                "missing argument"@
            } else {
                "malformed argument"@
            }
        },
    }
}

/// Whether `read` is what the arguments of `updateReport` stand for: the
/// report they hold, or the reason why they do not read.
pub open spec fn reads_update_report(
    args: Seq<MessageItem>,
    read: Result<OutBoundEvent, Error>,
) -> bool {
    match as_update_report(args) {
        Some((update_id, results)) => {
            &&& read matches Ok(OutBoundEvent::UpdateReport(report))
            &&& report.update_id == update_id
            &&& report.operation_results@ == results
        },
        None => {
            &&& read matches Err(Error::ParseError(text))
            &&& text@ == if args.len() < 2 {
                "missing argument"@
            } else {
                "malformed argument"@
            }
        },
    }
}

/// Reads the software manager's call `initiateDownload`: the update whose
/// download is to begin.
pub fn initiate_download(args: &Vec<MessageItem>) -> (read: Result<OutBoundEvent, Error>)
    ensures
        reads_initiate_download(args@, read),
{
    if args.len() < 1 {
        return Err(malformed(true));
    }
    match &args[0] {
        MessageItem::Str(update_id) => Ok(OutBoundEvent::InitiateDownload(update_id.clone())),
        _ => Err(malformed(false)),
    }
}

/// Reads the software manager's call `updateReport`: the update and the
/// results of its operations.
pub fn update_report(args: &Vec<MessageItem>) -> (read: Result<OutBoundEvent, Error>)
    ensures
        reads_update_report(args@, read),
{
    if args.len() < 2 {
        return Err(malformed(true));
    }
    match (&args[0], results(&args[1])) {
        (MessageItem::Str(update_id), Some(operation_results)) => Ok(
            OutBoundEvent::UpdateReport(
                UpdateReport { update_id: update_id.clone(), operation_results },
            ),
        ),
        _ => Err(malformed(false)),
    }
}

/// Reads a call of the software manager by the name of its method:
/// `initiateDownload` and `updateReport` are the methods that the client
/// offers. A call of any other method is not for the client, and nothing is
/// read.
pub fn incoming(member: &str, args: &Vec<MessageItem>) -> (read: Option<
    Result<OutBoundEvent, Error>,
>)
    ensures
        match read {
            Some(read) => if member@ == "initiateDownload"@ {
                reads_initiate_download(args@, read)
            } else {
                member@ == "updateReport"@ && reads_update_report(args@, read)
            },
            None => member@ != "initiateDownload"@ && member@ != "updateReport"@,
        },
{
    proof {
        reveal_strlit("initiateDownload");
        reveal_strlit("updateReport");
    }
    let member = String::from_str(member);
    if member == String::from_str("initiateDownload") {
        Some(initiate_download(args))
    } else if member == String::from_str("updateReport") {
        Some(update_report(args))
    } else {
        None
    }
}

} // verus!
