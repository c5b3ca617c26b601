//! The download orchestrator's decisions: how many transfers a request
//! owes, how each offer, liveness timeout and stream end changes the state,
//! and when the run fails. The surrounding task only performs what these
//! functions decide.

use vstd::prelude::*;
use crate::xdcc::{Xdcc, XdccView};

verus! {

#[derive(Debug, PartialEq, Eq, Structural, Clone, Copy)]
pub enum DownloadError {
    UnsupportedRequest,
    TooManyPackages,
    Timeout,
    ConnectionClosed,
}

pub open spec fn spec_error_message(e: DownloadError) -> Seq<char> {
    match e {
        DownloadError::UnsupportedRequest => "Only SEND and BATCH are supported!"@,
        DownloadError::TooManyPackages => "Too many packages requested!"@,
        DownloadError::Timeout => "Timed out waiting for packages!"@,
        DownloadError::ConnectionClosed => "Connection closed before all packages were downloaded!"@,
    }
}

impl DownloadError {
    /// The diagnostic printed when the run fails with this error.
    pub fn message(&self) -> (s: String)
        ensures
            s@ == spec_error_message(*self),
    {
        match self {
            DownloadError::UnsupportedRequest => String::from_str(
                "Only SEND and BATCH are supported!",
            ),
            DownloadError::TooManyPackages => String::from_str("Too many packages requested!"),
            DownloadError::Timeout => String::from_str("Timed out waiting for packages!"),
            DownloadError::ConnectionClosed => String::from_str(
                "Connection closed before all packages were downloaded!",
            ),
        }
    }
}

/// How many transfers a request owes: one for Send, one per listed package
/// for Batch (duplicates counted), and a configuration error for every
/// other kind.
pub open spec fn spec_total_downloads(x: XdccView) -> Result<u32, DownloadError> {
    match x {
        XdccView::Send(_, _) => Ok(1u32),
        XdccView::Batch(_, ids) => if ids.len() <= u32::MAX {
            Ok(ids.len() as u32)
        } else {
            Err(DownloadError::TooManyPackages)
        },
        _ => Err(DownloadError::UnsupportedRequest),
    }
}

pub fn calculate_total_downloads(command: &Xdcc) -> (r: Result<u32, DownloadError>)
    ensures
        r == spec_total_downloads(command@),
{
    match command {
        Xdcc::Send(_, _) => Ok(1),
        Xdcc::Batch(_, ids) => {
            if ids.len() <= u32::MAX as usize {
                Ok(ids.len() as u32)
            } else {
                Err(DownloadError::TooManyPackages)
            }
        },
        _ => Err(DownloadError::UnsupportedRequest),
    }
}

/// What the orchestrator's wait can observe: an accepted offer, the bounded
/// wait elapsing (with or without a transfer still running), or the inbound
/// stream ending.
#[derive(Debug, PartialEq, Eq, Structural, Clone, Copy)]
pub enum DownloadEvent {
    Offer,
    Timeout { transfer_active: bool },
    Closed,
}

#[derive(Debug, PartialEq, Eq, Structural, Clone, Copy)]
pub enum DownloadAction {
    AcceptOffer,
    Wait,
    Fail(DownloadError),
}

/// The orchestrator's control state: the expected transfer count is fixed
/// at construction; the handled count never exceeds it; the flag records
/// one idle liveness timeout.
#[derive(Debug, PartialEq, Eq, Structural, Clone, Copy)]
pub struct DownloadState {
    pub total_downloads: u32,
    pub handled_downloads: u32,
    pub quit_on_next_timeout: bool,
}

impl DownloadState {
    pub open spec fn wf(&self) -> bool {
        self.handled_downloads <= self.total_downloads
    }

    /// Validates the request and fixes the expected transfer count, before
    /// any network activity.
    pub fn new(command: &Xdcc) -> (r: Result<DownloadState, DownloadError>)
        ensures
            match r {
                Ok(st) => spec_total_downloads(command@) == Ok::<u32, DownloadError>(
                    st.total_downloads,
                ) && st.handled_downloads == 0 && !st.quit_on_next_timeout && st.wf(),
                Err(e) => spec_total_downloads(command@) == Err::<u32, DownloadError>(e),
            },
    {
        match calculate_total_downloads(command) {
            Ok(total) => Ok(
                DownloadState {
                    total_downloads: total,
                    handled_downloads: 0,
                    quit_on_next_timeout: false,
                },
            ),
            Err(e) => Err(e),
        }
    }

    pub fn is_complete(&self) -> (b: bool)
        ensures
            b == (self.handled_downloads == self.total_downloads),
    {
        self.handled_downloads == self.total_downloads
    }

    /// One step of the liveness policy. An offer is accepted while
    /// transfers are still owed and clears the timeout flag. A timeout with
    /// a transfer still running is live progress and clears the flag; an
    /// idle timeout arms the flag, and a second consecutive one fails the
    /// run. A closed stream always fails the run. The expected total never
    /// changes, and well-formedness is preserved.
    pub fn step(&mut self, event: DownloadEvent) -> (a: DownloadAction)
        ensures
            final(self).total_downloads == old(self).total_downloads,
            old(self).wf() ==> final(self).wf(),
            match event {
                DownloadEvent::Offer => {
                    if old(self).handled_downloads < old(self).total_downloads {
                        a == DownloadAction::AcceptOffer && final(self).handled_downloads == old(
                            self,
                        ).handled_downloads + 1 && !final(self).quit_on_next_timeout
                    } else {
                        a == DownloadAction::Wait && *final(self) == *old(self)
                    }
                },
                DownloadEvent::Timeout { transfer_active } => {
                    final(self).handled_downloads == old(self).handled_downloads && {
                        if transfer_active {
                            a == DownloadAction::Wait && !final(self).quit_on_next_timeout
                        } else if !old(self).quit_on_next_timeout {
                            a == DownloadAction::Wait && final(self).quit_on_next_timeout
                        } else {
                            a == DownloadAction::Fail(DownloadError::Timeout) && *final(self)
                                == *old(self)
                        }
                    }
                },
                DownloadEvent::Closed => a == DownloadAction::Fail(DownloadError::ConnectionClosed)
                    && *final(self) == *old(self),
            },
    {
        match event {
            DownloadEvent::Offer => {
                if self.handled_downloads < self.total_downloads {
                    self.handled_downloads = self.handled_downloads + 1;
                    self.quit_on_next_timeout = false;
                    DownloadAction::AcceptOffer
                } else {
                    DownloadAction::Wait
                }
            },
            DownloadEvent::Timeout { transfer_active } => {
                if transfer_active {
                    self.quit_on_next_timeout = false;
                    DownloadAction::Wait
                } else if !self.quit_on_next_timeout {
                    self.quit_on_next_timeout = true;
                    DownloadAction::Wait
                } else {
                    DownloadAction::Fail(DownloadError::Timeout)
                }
            },
            DownloadEvent::Closed => DownloadAction::Fail(DownloadError::ConnectionClosed),
        }
    }
}

/// The completion-reporting loop's accounting: one report per finished
/// transfer, until as many have been reported as were expected.
pub struct ReportCounter {
    pub reported: u32,
    pub total: u32,
}

impl ReportCounter {
    pub fn new(total: u32) -> (c: ReportCounter)
        ensures
            c.reported == 0,
            c.total == total,
    {
        ReportCounter { reported: 0, total }
    }

    /// Accounts for one reported completion; returns whether every expected
    /// transfer has now been reported, which ends the reporting loop.
    pub fn record(&mut self) -> (done: bool)
        requires
            old(self).reported < old(self).total,
        ensures
            final(self).total == old(self).total,
            final(self).reported == old(self).reported + 1,
            done == (final(self).reported == final(self).total),
    {
        self.reported = self.reported + 1;
        self.reported == self.total
    }

    pub fn is_done(&self) -> (b: bool)
        ensures
            b == (self.reported == self.total),
    {
        self.reported == self.total
    }
}

} // verus!
