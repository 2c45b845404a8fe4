//! The backend's REST surface: which request each operation makes, and what
//! follows from the outcome of a download and of an installation.
//!
//! Every path lies below `/api/v1/vehicle_updates/{device}`.

use vstd::prelude::*;
use crate::datatype::config::Config;
use crate::datatype::error::Error;
use crate::datatype::event::{views, Event, EventView};
use crate::datatype::method::Method;
use crate::datatype::package::Package;
use crate::datatype::report::{UpdateReport, UpdateReportView, UpdateResultCode};
use crate::datatype::update_request::{UpdateRequestId, UpdateState};
use crate::datatype::url::Url;
use crate::http_client::HttpRequest;
use crate::package_manager::InstallOutcome;
use crate::quote::{debug_quoted, debug_string};

verus! {

/// What a request to the backend carries. It goes out as JSON.
#[derive(Clone, Debug, PartialEq, Eq)]
pub enum Body {
    Empty,
    /// The report of an update and the device it comes from.
    Report { device: String, report: UpdateReport },
    /// The packages that are installed.
    Packages(Vec<Package>),
}

/// What a `Body` holds, as plain values.
pub enum BodyView {
    Empty,
    Report { device: Seq<char>, report: UpdateReportView },
    Packages(Seq<Package>),
}

impl View for Body {
    type V = BodyView;

    open spec fn view(&self) -> BodyView {
        match self {
            Body::Empty => BodyView::Empty,
            Body::Report { device, report } => BodyView::Report {
                device: device@,
                report: report@,
            },
            Body::Packages(packages) => BodyView::Packages(packages@),
        }
    }
}

/// A request to the backend, before its body is written out.
#[derive(Clone, Debug, PartialEq, Eq)]
pub struct BackendRequest {
    pub method: Method,
    pub url: Url,
    pub body: Body,
}

/// What a `BackendRequest` holds, as plain values.
pub struct BackendRequestView {
    pub method: Method,
    pub url: Seq<char>,
    pub body: BodyView,
}

impl View for BackendRequest {
    type V = BackendRequestView;

    open spec fn view(&self) -> BackendRequestView {
        BackendRequestView { method: self.method, url: self.url@, body: self.body@ }
    }
}

impl BackendRequest {
    /// The request ready to be sent, with its body written out as `body`.
    pub fn into_http(self, body: Option<Vec<u8>>) -> (request: HttpRequest)
        ensures
            request.method == self.method,
            request.url == self.url,
            request.body == body,
    {
        HttpRequest { method: self.method, url: self.url, body }
    }
}

/// The download of one update: the request to make and the file to keep the
/// answer in.
#[derive(Clone, Debug, PartialEq, Eq)]
pub struct Download {
    pub request: BackendRequest,
    pub path: String,
}

/// The address of `path` below the device's root at the backend; the root
/// itself for the empty path.
pub open spec fn endpoint(config: Config, path: Seq<char>) -> Seq<char> {
    let root = config.ota.server@ + "/api/v1/vehicle_updates/"@ + config.device.uuid@;
    if path.len() == 0 {
        root
    } else {
        root + "/"@ + path
    }
}

/// Where the package of update `id` is kept: `{packages_dir}/{id}.{extension}`.
pub open spec fn package_path(config: Config, id: Seq<char>, extension: Seq<char>) -> Seq<char> {
    config.ota.packages_dir@ + "/"@ + id + "."@ + extension
}

/// The request for the updates that are pending.
pub open spec fn pending_updates_request(config: Config) -> BackendRequestView {
    BackendRequestView {
        method: Method::Get,
        url: endpoint(config, Seq::empty()),
        body: BodyView::Empty,
    }
}

/// The request for the package of update `id`.
pub open spec fn download_request(config: Config, id: Seq<char>) -> BackendRequestView {
    BackendRequestView {
        method: Method::Get,
        url: endpoint(config, id + "/download"@),
        body: BodyView::Empty,
    }
}

/// The request that hands in the report of an update.
pub open spec fn report_request(config: Config, report: UpdateReportView) -> BackendRequestView {
    BackendRequestView {
        method: Method::Post,
        url: endpoint(config, report.update_id),
        body: BodyView::Report { device: config.device.uuid@, report },
    }
}

/// The request that tells the backend what is installed.
pub open spec fn installed_request(config: Config, packages: Seq<Package>) -> BackendRequestView {
    BackendRequestView {
        method: Method::Put,
        url: endpoint(config, "installed"@),
        body: BodyView::Packages(packages),
    }
}

/// What is said of an installation that failed: the name of the code, then
/// the package manager's words in double quotes.
pub open spec fn install_failure(code: UpdateResultCode, output: Seq<char>) -> Seq<char> {
    code.label() + ": "@ + debug_quoted(output)
}

/// The report of an update whose package could not be had.
pub open spec fn download_failure_report(id: Seq<char>, error: Error) -> UpdateReportView {
    UpdateReportView::single(
        id,
        UpdateResultCode::GENERAL_ERROR,
        "Download failed: "@ + error.diagnostic(),
    )
}

/// The event that tells how the installation of update `id` ended.
pub open spec fn installation_event(id: Seq<char>, installed: InstallOutcome) -> EventView {
    match installed {
        Ok(_) => EventView::UpdateStateChanged(id, UpdateState::Installed),
        Err((code, output)) => EventView::UpdateErrored(id, install_failure(code, output@)),
    }
}

/// The report of an installation: the code and the words of the package
/// manager, whether it succeeded or failed.
pub open spec fn installation_report(id: Seq<char>, installed: InstallOutcome) -> UpdateReportView {
    match installed {
        Ok((code, output)) => UpdateReportView::single(id, code, output@),
        Err((code, output)) => UpdateReportView::single(id, code, output@),
    }
}

/// Pushing an event onto a run pushes its view onto the run's views.
pub proof fn views_push(events: Seq<Event>, event: Event)
    ensures
        views(events.push(event)) == views(events).push(event@),
{
    assert(views(events.push(event)) =~= views(events).push(event@));
}

/// The backend as one device sees it.
pub struct OTA<'c> {
    config: &'c Config,
}

impl<'c> OTA<'c> {
    pub closed spec fn config(self) -> Config {
        *self.config
    }

    pub fn new(config: &'c Config) -> (ota: OTA<'c>)
        ensures
            ota.config() == *config,
    {
        OTA { config }
    }

    /// The address of `path` below the device's root at the backend.
    pub fn update_endpoint(&self, path: &str) -> (url: Url)
        ensures
            url@ == endpoint(self.config(), path@),
    {
        let mut text = self.config.ota.server.to_string();
        text.append("/api/v1/vehicle_updates/");
        text.append(self.config.device.uuid.as_str());
        if !path.is_empty() {
            text.append("/");
            text.append(path);
        }
        Url(text)
    }

    /// The request for the updates that are pending. The answer is a list of
    /// `PendingUpdateRequest`.
    pub fn get_package_updates(&self) -> (request: BackendRequest)
        ensures
            request@ == pending_updates_request(self.config()),
    {
        proof {
            reveal_strlit("");
        }
        BackendRequest { method: Method::Get, url: self.update_endpoint(""), body: Body::Empty }
    }

    /// The download of update `id`: the request for its package, and the file
    /// under the packages directory that is to receive it.
    pub fn download_package_update(&self, id: &UpdateRequestId, extension: &str) -> (download:
        Download)
        ensures
            download.request@ == download_request(self.config(), id@),
            download.path@ == package_path(self.config(), id@, extension@),
    {
        let mut tail = id.clone();
        tail.append("/download");
        let mut path = self.config.ota.packages_dir.clone();
        path.append("/");
        path.append(id.as_str());
        path.append(".");
        path.append(extension);
        Download {
            request: BackendRequest {
                method: Method::Get,
                url: self.update_endpoint(tail.as_str()),
                body: Body::Empty,
            },
            path,
        }
    }

    /// What follows from the outcome of a download. With the package at hand
    /// the update enters `Installing`, and the path of the package comes back
    /// for the package manager. Without it the update has failed: observers
    /// learn why, and the report for the backend comes back.
    pub fn install_package_update(
        &self,
        id: &UpdateRequestId,
        downloaded: Result<String, Error>,
        etx: &mut Vec<Event>,
    ) -> (next: Result<String, UpdateReport>)
        ensures
            match downloaded {
                Ok(path) => {
                    &&& next == Ok::<String, UpdateReport>(path)
                    &&& views(final(etx)@) == views(old(etx)@).push(
                        EventView::UpdateStateChanged(id@, UpdateState::Installing),
                    )
                },
                Err(error) => {
                    &&& next matches Err(report)
                    &&& report@ == download_failure_report(id@, error)
                    &&& views(final(etx)@) == views(old(etx)@).push(
                        EventView::UpdateErrored(id@, error.diagnostic()),
                    )
                },
            },
    {
        match downloaded {
            Ok(path) => {
                let event = Event::UpdateStateChanged(id.clone(), UpdateState::Installing);
                proof {
                    views_push(etx@, event);
                }
                etx.push(event);
                Ok(path)
            },
            Err(error) => {
                let event = Event::UpdateErrored(id.clone(), error.debug());
                proof {
                    views_push(etx@, event);
                }
                etx.push(event);
                let mut failed = String::from_str("Download failed: ");
                failed.append(error.debug().as_str());
                Err(UpdateReport::single(id.clone(), UpdateResultCode::GENERAL_ERROR, failed))
            },
        }
    }

    /// What follows from the outcome of an installation: observers learn how
    /// it ended, and the report for the backend comes back.
    pub fn installation_report(
        &self,
        id: &UpdateRequestId,
        installed: InstallOutcome,
        etx: &mut Vec<Event>,
    ) -> (report: UpdateReport)
        ensures
            report@ == installation_report(id@, installed),
            views(final(etx)@) == views(old(etx)@).push(installation_event(id@, installed)),
    {
        match installed {
            Ok((code, output)) => {
                let event = Event::UpdateStateChanged(id.clone(), UpdateState::Installed);
                proof {
                    views_push(etx@, event);
                }
                etx.push(event);
                UpdateReport::single(id.clone(), code, output)
            },
            Err((code, output)) => {
                let mut text = String::from_str(code.name());
                text.append(": ");
                text.append(debug_string(output.as_str()).as_str());
                let event = Event::UpdateErrored(id.clone(), text);
                proof {
                    views_push(etx@, event);
                }
                etx.push(event);
                UpdateReport::single(id.clone(), code, output)
            },
        }
    }

    /// The request that tells the backend which packages are installed.
    pub fn update_installed_packages(&self, packages: Vec<Package>) -> (request: BackendRequest)
        ensures
            request@ == installed_request(self.config(), packages@),
    {
        BackendRequest {
            method: Method::Put,
            url: self.update_endpoint("installed"),
            body: Body::Packages(packages),
        }
    }

    /// The request that hands in the report of an update, together with the
    /// device it comes from.
    pub fn send_install_report(&self, report: UpdateReport) -> (request: BackendRequest)
        ensures
            request@ == report_request(self.config(), report@),
    {
        let url = self.update_endpoint(report.update_id.as_str());
        BackendRequest {
            method: Method::Post,
            url,
            body: Body::Report { device: self.config.device.uuid.clone(), report },
        }
    }
}

} // verus!
