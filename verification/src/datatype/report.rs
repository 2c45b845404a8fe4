use vstd::prelude::*;
use crate::datatype::update_request::UpdateRequestId;

verus! {

/// An update report together with the device it comes from, as the backend
/// expects it.
#[derive(Clone, Debug)]
pub struct UpdateReportWithDevice<'a, 'b> {
    device: &'a str,
    update_report: &'b UpdateReport,
}

impl<'a, 'b> UpdateReportWithDevice<'a, 'b> {
    pub fn new(device: &'a str, update_report: &'b UpdateReport) -> (with_device:
        UpdateReportWithDevice<'a, 'b>)
        ensures
            with_device.device() == device,
            with_device.update_report() == update_report,
    {
        UpdateReportWithDevice { device, update_report }
    }

    pub closed spec fn device(self) -> &'a str {
        self.device
    }

    pub closed spec fn update_report(self) -> &'b UpdateReport {
        self.update_report
    }

    /// The device the report comes from.
    pub fn device_id(&self) -> (device: &'a str)
        ensures
            device == self.device(),
    {
        self.device
    }

    /// The report itself.
    pub fn report(&self) -> (report: &'b UpdateReport)
        ensures
            report == self.update_report(),
    {
        self.update_report
    }
}

/// The outcome of one operation of an update.
#[derive(Clone, Debug, PartialEq, Eq)]
pub struct OperationResult {
    pub id: String,
    pub result_code: UpdateResultCode,
    pub result_text: String,
}

/// What an `OperationResult` holds, as plain values.
pub struct OperationResultView {
    pub id: Seq<char>,
    pub result_code: UpdateResultCode,
    pub result_text: Seq<char>,
}

impl View for OperationResult {
    type V = OperationResultView;

    open spec fn view(&self) -> OperationResultView {
        OperationResultView {
            id: self.id@,
            result_code: self.result_code,
            result_text: self.result_text@,
        }
    }
}

#[derive(Clone)]
pub struct OperationResults(pub Vec<OperationResult>);

/// What the backend learns about one update: a result for each operation.
#[derive(Clone, Debug, PartialEq, Eq)]
pub struct UpdateReport {
    pub update_id: UpdateRequestId,
    pub operation_results: Vec<OperationResult>,
}

/// What an `UpdateReport` holds, as plain values.
pub struct UpdateReportView {
    pub update_id: Seq<char>,
    pub operation_results: Seq<OperationResultView>,
}

impl View for UpdateReport {
    type V = UpdateReportView;

    open spec fn view(&self) -> UpdateReportView {
        UpdateReportView {
            update_id: self.update_id@,
            operation_results: self.operation_results@.map_values(|r: OperationResult| r@),
        }
    }
}

impl UpdateReportView {
    /// The report of an update with a single operation, which carries the
    /// update's own id.
    pub open spec fn single(
        update_id: Seq<char>,
        result_code: UpdateResultCode,
        result_text: Seq<char>,
    ) -> UpdateReportView {
        UpdateReportView {
            update_id,
            operation_results: seq![
                OperationResultView { id: update_id, result_code, result_text },
            ],
        }
    }
}

impl UpdateReport {
    pub fn new(id: String, res: OperationResults) -> (report: UpdateReport)
        ensures
            report.update_id == id,
            report.operation_results == res.0,
    {
        UpdateReport { update_id: id, operation_results: res.0 }
    }

    /// The report of an update with a single operation, which carries the
    /// update's own id.
    pub fn single(
        update_id: UpdateRequestId,
        result_code: UpdateResultCode,
        result_text: String,
    ) -> (report: UpdateReport)
        ensures
            report@ == UpdateReportView::single(update_id@, result_code, result_text@),
            report.update_id == update_id,
    {
        let id = update_id.clone();
        let mut operation_results: Vec<OperationResult> = Vec::new();
        operation_results.push(OperationResult { id, result_code, result_text });
        let report = UpdateReport { update_id, operation_results };
        assert(report@.operation_results =~= UpdateReportView::single(
            update_id@,
            result_code,
            result_text@,
        ).operation_results);
        report
    }
}

/// How an operation of an update ended. On the wire a code is the number
/// `wire()` gives it.
#[allow(non_camel_case_types)]
#[derive(Clone, Copy, Debug, PartialEq, Eq, Structural)]
pub enum UpdateResultCode {
    /// Operation executed successfully
    OK,
    /// Operation has already been processed
    ALREADY_PROCESSED,
    /// Dependency failure during package install, upgrade, or removal
    DEPENDENCY_FAILURE,
    /// Update image integrity has been compromised
    VALIDATION_FAILED,
    /// Package installation failed
    INSTALL_FAILED,
    /// Package upgrade failed
    UPGRADE_FAILED,
    /// Package removal failed
    REMOVAL_FAILED,
    /// The module loader could not flash its managed module
    FLASH_FAILED,
    /// Partition creation failed
    CREATE_PARTITION_FAILED,
    /// Partition deletion failed
    DELETE_PARTITION_FAILED,
    /// Partition resize failed
    RESIZE_PARTITION_FAILED,
    /// Partition write failed
    WRITE_PARTITION_FAILED,
    /// Partition patching failed
    PATCH_PARTITION_FAILED,
    /// User declined the update
    USER_DECLINED,
    /// Software was blacklisted
    SOFTWARE_BLACKLISTED,
    /// Ran out of disk space
    DISK_FULL,
    /// Software package not found
    NOT_FOUND,
    /// Tried to downgrade to older version
    OLD_VERSION,
    /// SWM Internal integrity error
    INTERNAL_ERROR,
    /// Other error
    GENERAL_ERROR,
}

impl UpdateResultCode {
    /// The number that stands for the code on the wire.
    pub open spec fn wire(self) -> nat {
        match self {
            UpdateResultCode::OK => 0,
            UpdateResultCode::ALREADY_PROCESSED => 1,
            UpdateResultCode::DEPENDENCY_FAILURE => 2,
            UpdateResultCode::VALIDATION_FAILED => 3,
            UpdateResultCode::INSTALL_FAILED => 4,
            UpdateResultCode::UPGRADE_FAILED => 5,
            UpdateResultCode::REMOVAL_FAILED => 6,
            UpdateResultCode::FLASH_FAILED => 7,
            UpdateResultCode::CREATE_PARTITION_FAILED => 8,
            UpdateResultCode::DELETE_PARTITION_FAILED => 9,
            UpdateResultCode::RESIZE_PARTITION_FAILED => 10,
            UpdateResultCode::WRITE_PARTITION_FAILED => 11,
            UpdateResultCode::PATCH_PARTITION_FAILED => 12,
            UpdateResultCode::USER_DECLINED => 13,
            UpdateResultCode::SOFTWARE_BLACKLISTED => 14,
            UpdateResultCode::DISK_FULL => 15,
            UpdateResultCode::NOT_FOUND => 16,
            UpdateResultCode::OLD_VERSION => 17,
            UpdateResultCode::INTERNAL_ERROR => 18,
            UpdateResultCode::GENERAL_ERROR => 19,
        }
    }

    /// The name of the code, as diagnostics show it.
    pub open spec fn label(self) -> Seq<char> {
        match self {
            UpdateResultCode::OK => "OK"@,
            UpdateResultCode::ALREADY_PROCESSED => "ALREADY_PROCESSED"@,
            UpdateResultCode::DEPENDENCY_FAILURE => "DEPENDENCY_FAILURE"@,
            UpdateResultCode::VALIDATION_FAILED => "VALIDATION_FAILED"@,
            UpdateResultCode::INSTALL_FAILED => "INSTALL_FAILED"@,
            UpdateResultCode::UPGRADE_FAILED => "UPGRADE_FAILED"@,
            UpdateResultCode::REMOVAL_FAILED => "REMOVAL_FAILED"@,
            UpdateResultCode::FLASH_FAILED => "FLASH_FAILED"@,
            UpdateResultCode::CREATE_PARTITION_FAILED => "CREATE_PARTITION_FAILED"@,
            UpdateResultCode::DELETE_PARTITION_FAILED => "DELETE_PARTITION_FAILED"@,
            UpdateResultCode::RESIZE_PARTITION_FAILED => "RESIZE_PARTITION_FAILED"@,
            UpdateResultCode::WRITE_PARTITION_FAILED => "WRITE_PARTITION_FAILED"@,
            UpdateResultCode::PATCH_PARTITION_FAILED => "PATCH_PARTITION_FAILED"@,
            UpdateResultCode::USER_DECLINED => "USER_DECLINED"@,
            UpdateResultCode::SOFTWARE_BLACKLISTED => "SOFTWARE_BLACKLISTED"@,
            UpdateResultCode::DISK_FULL => "DISK_FULL"@,
            UpdateResultCode::NOT_FOUND => "NOT_FOUND"@,
            UpdateResultCode::OLD_VERSION => "OLD_VERSION"@,
            UpdateResultCode::INTERNAL_ERROR => "INTERNAL_ERROR"@,
            UpdateResultCode::GENERAL_ERROR => "GENERAL_ERROR"@,
        }
    }

    /// The number that stands for the code on the wire.
    pub fn code(&self) -> (n: u64)
        ensures
            n == self.wire(),
    {
        match self {
            UpdateResultCode::OK => 0,
            UpdateResultCode::ALREADY_PROCESSED => 1,
            UpdateResultCode::DEPENDENCY_FAILURE => 2,
            UpdateResultCode::VALIDATION_FAILED => 3,
            UpdateResultCode::INSTALL_FAILED => 4,
            UpdateResultCode::UPGRADE_FAILED => 5,
            UpdateResultCode::REMOVAL_FAILED => 6,
            UpdateResultCode::FLASH_FAILED => 7,
            UpdateResultCode::CREATE_PARTITION_FAILED => 8,
            UpdateResultCode::DELETE_PARTITION_FAILED => 9,
            UpdateResultCode::RESIZE_PARTITION_FAILED => 10,
            UpdateResultCode::WRITE_PARTITION_FAILED => 11,
            UpdateResultCode::PATCH_PARTITION_FAILED => 12,
            UpdateResultCode::USER_DECLINED => 13,
            UpdateResultCode::SOFTWARE_BLACKLISTED => 14,
            UpdateResultCode::DISK_FULL => 15,
            UpdateResultCode::NOT_FOUND => 16,
            UpdateResultCode::OLD_VERSION => 17,
            UpdateResultCode::INTERNAL_ERROR => 18,
            UpdateResultCode::GENERAL_ERROR => 19,
        }
    }

    /// The code a number on the wire stands for, if it stands for one.
    pub fn from_code(n: u64) -> (code: Option<UpdateResultCode>)
        ensures
            code is Some <==> n < 20,
            code matches Some(c) ==> c.wire() == n,
    {
        match n {
            0 => Some(UpdateResultCode::OK),
            1 => Some(UpdateResultCode::ALREADY_PROCESSED),
            2 => Some(UpdateResultCode::DEPENDENCY_FAILURE),
            3 => Some(UpdateResultCode::VALIDATION_FAILED),
            4 => Some(UpdateResultCode::INSTALL_FAILED),
            5 => Some(UpdateResultCode::UPGRADE_FAILED),
            6 => Some(UpdateResultCode::REMOVAL_FAILED),
            7 => Some(UpdateResultCode::FLASH_FAILED),
            8 => Some(UpdateResultCode::CREATE_PARTITION_FAILED),
            9 => Some(UpdateResultCode::DELETE_PARTITION_FAILED),
            10 => Some(UpdateResultCode::RESIZE_PARTITION_FAILED),
            11 => Some(UpdateResultCode::WRITE_PARTITION_FAILED),
            12 => Some(UpdateResultCode::PATCH_PARTITION_FAILED),
            13 => Some(UpdateResultCode::USER_DECLINED),
            14 => Some(UpdateResultCode::SOFTWARE_BLACKLISTED),
            15 => Some(UpdateResultCode::DISK_FULL),
            16 => Some(UpdateResultCode::NOT_FOUND),
            17 => Some(UpdateResultCode::OLD_VERSION),
            18 => Some(UpdateResultCode::INTERNAL_ERROR),
            19 => Some(UpdateResultCode::GENERAL_ERROR),
            _ => None,
        }
    }

    /// The name of the code, as diagnostics show it.
    pub fn name(&self) -> (text: &'static str)
        ensures
            text@ == self.label(),
    {
        match self {
            UpdateResultCode::OK => "OK",
            UpdateResultCode::ALREADY_PROCESSED => "ALREADY_PROCESSED",
            UpdateResultCode::DEPENDENCY_FAILURE => "DEPENDENCY_FAILURE",
            UpdateResultCode::VALIDATION_FAILED => "VALIDATION_FAILED",
            UpdateResultCode::INSTALL_FAILED => "INSTALL_FAILED",
            UpdateResultCode::UPGRADE_FAILED => "UPGRADE_FAILED",
            UpdateResultCode::REMOVAL_FAILED => "REMOVAL_FAILED",
            UpdateResultCode::FLASH_FAILED => "FLASH_FAILED",
            UpdateResultCode::CREATE_PARTITION_FAILED => "CREATE_PARTITION_FAILED",
            UpdateResultCode::DELETE_PARTITION_FAILED => "DELETE_PARTITION_FAILED",
            UpdateResultCode::RESIZE_PARTITION_FAILED => "RESIZE_PARTITION_FAILED",
            UpdateResultCode::WRITE_PARTITION_FAILED => "WRITE_PARTITION_FAILED",
            UpdateResultCode::PATCH_PARTITION_FAILED => "PATCH_PARTITION_FAILED",
            UpdateResultCode::USER_DECLINED => "USER_DECLINED",
            UpdateResultCode::SOFTWARE_BLACKLISTED => "SOFTWARE_BLACKLISTED",
            UpdateResultCode::DISK_FULL => "DISK_FULL",
            UpdateResultCode::NOT_FOUND => "NOT_FOUND",
            UpdateResultCode::OLD_VERSION => "OLD_VERSION",
            UpdateResultCode::INTERNAL_ERROR => "INTERNAL_ERROR",
            UpdateResultCode::GENERAL_ERROR => "GENERAL_ERROR",
        }
    }
}

/// Two codes with the same number on the wire are the same code, so a code
/// survives being sent as its number and read back.
pub proof fn wire_code_round_trip(a: UpdateResultCode, b: UpdateResultCode)
    ensures
        a.wire() < 20,
        a.wire() == b.wire() ==> a == b,
{
}

/// Firmware that a module of the device runs.
#[derive(Clone, Debug, PartialEq, Eq)]
pub struct InstalledFirmware {
    pub module: String,
    pub firmware_id: String,
    pub last_modified: u64,
}

#[derive(Clone, Debug, PartialEq, Eq)]
pub struct InstalledFirmwares(pub Vec<InstalledFirmware>);

/// A package that is installed on the device.
#[derive(Clone, Debug, PartialEq, Eq)]
pub struct InstalledPackage {
    pub package_id: String,
    pub name: String,
    pub description: String,
    pub last_modified: u64,
}

#[derive(Clone, Debug, PartialEq, Eq)]
pub struct InstalledPackages(pub Vec<InstalledPackage>);

/// Everything the software manager reports as installed.
#[derive(Clone, Debug, PartialEq, Eq)]
pub struct InstalledSoftware {
    pub packages: Vec<InstalledPackage>,
    pub firmware: Vec<InstalledFirmware>,
}

impl InstalledSoftware {
    pub fn new(p: InstalledPackages, f: InstalledFirmwares) -> (software: InstalledSoftware)
        ensures
            software.packages == p.0,
            software.firmware == f.0,
    {
        InstalledSoftware { packages: p.0, firmware: f.0 }
    }
}

} // verus!
