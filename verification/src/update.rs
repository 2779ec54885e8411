//! The self-update session state machine.
//!
//! A session wraps a remote update feed client owned by the caller. The
//! caller asks the session to start a check or an installation, performs the
//! network work the returned action requests, and reports what the feed
//! client said as [`FeedEvent`]s. The session decides every transition:
//! whether an update is newer than the running build is the feed client's
//! judgement, carried in the event; version comparison and parsing are not
//! reimplemented here.
//!
//! An installation re-runs the check before downloading, so it never acts on
//! a stale availability signal, and a session that is already checking,
//! downloading or installing rejects a second installation request outright:
//! no two downloads ever run against the same installation target.

use vstd::prelude::*;

use crate::errors::ErrorView;
use crate::errors::OrchestratorError;

verus! {

/// The observable state of an update session.
#[derive(Debug, Clone)]
pub enum UpdateStatus {
    Idle,
    Checking,
    UpToDate,
    Available { version: String },
    Downloading { progress: u64, total: Option<u64> },
    Installing,
    Installed,
    Failed { reason: String },
}

/// What the feed client reported back to the session.
///
/// `CheckDone { latest: Some(v) }` means the feed published version `v` and
/// the client judged it newer than the running build; `latest: None` means
/// nothing newer is published.
#[derive(Debug, Clone)]
pub enum FeedEvent {
    CheckDone { latest: Option<String> },
    CheckFailed { reason: String },
    Progress { downloaded: u64, total: Option<u64> },
    DownloadComplete,
    InstallDone,
    InstallFailed { reason: String },
}

/// The network work the session asks the caller to perform next.
#[derive(Debug, Clone, PartialEq, Eq, Structural)]
pub enum UpdateAction {
    QueryFeed,
    BeginDownload,
    DoNothing,
}

/// The diagnostic for an installation requested while another check or
/// installation is in flight.
pub open spec fn busy_msg() -> Seq<char> {
    "an update operation is already in progress"@
}

/// An update session: its observable status, and whether the pending check
/// was started on behalf of an installation request.
#[derive(Debug, Clone)]
pub struct UpdateSession {
    pub status: UpdateStatus,
    pub install_pending: bool,
}

/// Whether the session has an operation in flight that a new check or
/// installation must not overlap.
pub open spec fn is_busy(s: UpdateStatus) -> bool {
    s is Checking || s is Downloading || s is Installing
}

impl UpdateSession {
    /// An installation intent only ever accompanies a pending check.
    pub open spec fn wf(self) -> bool {
        self.install_pending ==> self.status is Checking
    }

    /// A fresh session: idle, with nothing pending.
    pub fn new() -> (r: UpdateSession)
        ensures
            r.status is Idle,
            !r.install_pending,
            r.wf(),
    {
        UpdateSession { status: UpdateStatus::Idle, install_pending: false }
    }

    /// Starts an on-demand check of the update feed.
    ///
    /// From any settled state the session moves to checking and asks the
    /// caller to query the feed; while a check, download or installation is
    /// in flight the request is rejected as a feed error and the session is
    /// left unchanged.
    pub fn start_check(&mut self) -> (r: Result<UpdateAction, OrchestratorError>)
        requires
            old(self).wf(),
        ensures
            final(self).wf(),
            !is_busy(old(self).status) ==> (r matches Ok(a) && a == UpdateAction::QueryFeed
                && final(self).status is Checking && !final(self).install_pending),
            is_busy(old(self).status) ==> (r matches Err(e) && e@ == (ErrorView::Feed {
                detail: busy_msg(),
            }) && *final(self) == *old(self)),
    {
        match self.status {
            UpdateStatus::Checking | UpdateStatus::Downloading { .. } | UpdateStatus::Installing => Err(
                OrchestratorError::Feed {
                    detail: "an update operation is already in progress".to_owned(),
                },
            ),
            _ => {
                self.status = UpdateStatus::Checking;
                self.install_pending = false;
                Ok(UpdateAction::QueryFeed)
            },
        }
    }

    /// Starts an installation.
    ///
    /// Availability is re-verified: the session first asks the caller to
    /// query the feed again, and only a fresh report of a newer version
    /// leads to a download. While a check, download or installation is
    /// already in flight the request is rejected as an installation error
    /// and the session is left unchanged, so no second download can ever be
    /// started against the same target.
    pub fn start_install(&mut self) -> (r: Result<UpdateAction, OrchestratorError>)
        requires
            old(self).wf(),
        ensures
            final(self).wf(),
            !is_busy(old(self).status) ==> (r matches Ok(a) && a == UpdateAction::QueryFeed
                && final(self).status is Checking && final(self).install_pending),
            is_busy(old(self).status) ==> (r matches Err(e) && e@ == (ErrorView::Install {
                detail: busy_msg(),
            }) && *final(self) == *old(self)),
            r matches Ok(a) ==> a != UpdateAction::BeginDownload,
    {
        match self.status {
            UpdateStatus::Checking | UpdateStatus::Downloading { .. } | UpdateStatus::Installing => Err(
                OrchestratorError::Install {
                    detail: "an update operation is already in progress".to_owned(),
                },
            ),
            _ => {
                self.status = UpdateStatus::Checking;
                self.install_pending = true;
                Ok(UpdateAction::QueryFeed)
            },
        }
    }

    /// Feeds the client's report into the session and decides the next
    /// state and action.
    ///
    /// A completed check settles to available or up to date, or, when the
    /// check was made on behalf of an installation, either begins the
    /// download or fails with a no-update error without any download being
    /// requested. A failed check settles to failed. Progress reports only
    /// move the recorded progress forward, download completion moves the
    /// session to installing, and the installation outcome settles it to
    /// installed or failed. A report that does not belong to the current
    /// state changes nothing, so a settled session stays settled.
    pub fn on_feed_event(&mut self, event: FeedEvent) -> (r: Result<
        UpdateAction,
        OrchestratorError,
    >)
        requires
            old(self).wf(),
        ensures
            final(self).wf(),
            event matches FeedEvent::CheckDone { latest } ==> ({
                &&& !(old(self).status is Checking) ==> (r matches Ok(a) && a
                    == UpdateAction::DoNothing && *final(self) == *old(self))
                &&& latest matches Some(v) ==> ({
                    &&& (old(self).status is Checking && old(self).install_pending) ==> (
                    r matches Ok(a) && a == UpdateAction::BeginDownload && final(self).status == (
                    UpdateStatus::Downloading { progress: 0u64, total: None }))
                    &&& (old(self).status is Checking && !old(self).install_pending) ==> (
                    r matches Ok(a) && a == UpdateAction::DoNothing && (final(self).status matches
                    UpdateStatus::Available { version } && version@ == v@))
                })
                &&& (old(self).status is Checking && latest is None && old(
                    self,
                ).install_pending) ==> (r matches Err(e) && e@ == ErrorView::NoUpdate
                    && final(self).status is UpToDate)
                &&& (old(self).status is Checking && latest is None && !old(
                    self,
                ).install_pending) ==> (r matches Ok(a) && a == UpdateAction::DoNothing
                    && final(self).status is UpToDate)
            }),
            event matches FeedEvent::CheckFailed { reason } ==> ({
                &&& !(old(self).status is Checking) ==> (r matches Ok(a) && a
                    == UpdateAction::DoNothing && *final(self) == *old(self))
                &&& old(self).status is Checking ==> (r matches Err(e) && e@ == (ErrorView::Feed {
                    detail: reason@,
                }) && (final(self).status matches UpdateStatus::Failed { reason: rr } && rr@ == reason@))
            }),
            event matches FeedEvent::Progress { downloaded, total } ==> ({
                &&& !(old(self).status is Downloading) ==> (r matches Ok(a) && a
                    == UpdateAction::DoNothing && *final(self) == *old(self))
                &&& old(self).status matches UpdateStatus::Downloading {
                    progress: p0,
                    total: t0,
                } ==> (r matches Ok(a) && a == UpdateAction::DoNothing
                    && (final(self).status matches UpdateStatus::Downloading { progress: p1, total: t1 }
                    && p1 == (if downloaded > p0 {
                    downloaded
                } else {
                    p0
                }) && p1 >= p0 && t1 == (if total is Some {
                    total
                } else {
                    t0
                })))
            }),
            event is DownloadComplete ==> ({
                &&& !(old(self).status is Downloading) ==> (r matches Ok(a) && a
                    == UpdateAction::DoNothing && *final(self) == *old(self))
                &&& old(self).status is Downloading ==> (r matches Ok(a) && a
                    == UpdateAction::DoNothing && final(self).status is Installing)
            }),
            event is InstallDone ==> ({
                &&& !(old(self).status is Installing) ==> (r matches Ok(a) && a
                    == UpdateAction::DoNothing && *final(self) == *old(self))
                &&& old(self).status is Installing ==> (r matches Ok(a) && a
                    == UpdateAction::DoNothing && final(self).status is Installed)
            }),
            event matches FeedEvent::InstallFailed { reason } ==> ({
                &&& !(old(self).status is Downloading || old(self).status is Installing) ==> (
                r matches Ok(a) && a == UpdateAction::DoNothing && *final(self) == *old(self))
                &&& (old(self).status is Downloading || old(self).status is Installing) ==> (
                r matches Err(e) && e@ == (ErrorView::Install { detail: reason@ })
                    && (final(self).status matches UpdateStatus::Failed { reason: rr } && rr@
                    == reason@))
            }),
    {
        match event {
            FeedEvent::CheckDone { latest } => {
                if !matches!(self.status, UpdateStatus::Checking) {
                    return Ok(UpdateAction::DoNothing);
                }
                let installing = self.install_pending;
                self.install_pending = false;
                match latest {
                    Some(version) => {
                        if installing {
                            self.status = UpdateStatus::Downloading { progress: 0, total: None };
                            Ok(UpdateAction::BeginDownload)
                        } else {
                            self.status = UpdateStatus::Available { version };
                            Ok(UpdateAction::DoNothing)
                        }
                    },
                    None => {
                        self.status = UpdateStatus::UpToDate;
                        if installing {
                            Err(OrchestratorError::NoUpdate)
                        } else {
                            Ok(UpdateAction::DoNothing)
                        }
                    },
                }
            },
            FeedEvent::CheckFailed { reason } => {
                if !matches!(self.status, UpdateStatus::Checking) {
                    return Ok(UpdateAction::DoNothing);
                }
                self.install_pending = false;
                self.status = UpdateStatus::Failed { reason: reason.clone() };
                Err(OrchestratorError::Feed { detail: reason })
            },
            FeedEvent::Progress { downloaded, total } => {
                match self.status {
                    UpdateStatus::Downloading { progress, total: known_total } => {
                        let new_progress = if downloaded > progress {
                            downloaded
                        } else {
                            progress
                        };
                        let new_total = match total {
                            Some(t) => Some(t),
                            None => known_total,
                        };
                        self.status = UpdateStatus::Downloading {
                            progress: new_progress,
                            total: new_total,
                        };
                        Ok(UpdateAction::DoNothing)
                    },
                    _ => Ok(UpdateAction::DoNothing),
                }
            },
            FeedEvent::DownloadComplete => {
                if matches!(self.status, UpdateStatus::Downloading { .. }) {
                    self.status = UpdateStatus::Installing;
                }
                Ok(UpdateAction::DoNothing)
            },
            FeedEvent::InstallDone => {
                if matches!(self.status, UpdateStatus::Installing) {
                    self.status = UpdateStatus::Installed;
                }
                Ok(UpdateAction::DoNothing)
            },
            FeedEvent::InstallFailed { reason } => {
                if matches!(self.status, UpdateStatus::Downloading { .. }) || matches!(
                    self.status,
                    UpdateStatus::Installing,
                ) {
                    self.status = UpdateStatus::Failed { reason: reason.clone() };
                    Err(OrchestratorError::Install { detail: reason })
                } else {
                    Ok(UpdateAction::DoNothing)
                }
            },
        }
    }
}

} // verus!
