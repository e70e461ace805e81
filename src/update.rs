//! The decisions of one update check, as a machine from state and event to
//! next state and action.
//!
//! The caller performs each action (fetch the release metadata, look up the
//! directory of the running executable, download, move the download into
//! place) and hands back what came of it as an event.
use vstd::prelude::*;
use vstd::string::*;

use crate::error::ReleaseError;
use crate::release::{asset_url, ReleaseSource};
use crate::version::{
    extract_local_version_number,
    extract_remote_version_number,
    local_version,
    remote_version,
};

verus! {

/// The check-release command: whether to download when the local version
/// differs from the latest remote one.
#[derive(Debug, Clone, Copy)]
pub struct CheckRelease {
    /// Download if the local version mismatches the latest remote version.
    pub download: bool,
}

/// The latest release, as the release metadata describes it.
#[derive(Debug, PartialEq, Eq)]
pub struct RemoteRelease {
    pub tag_name: String,
}

/// How an update check ended, each with the remote tag.
#[derive(Debug, PartialEq, Eq)]
pub enum UpdateOutcome {
    /// The local version is the remote one.
    UpToDate(String),
    /// A release with another version exists, to be downloaded from the URL
    /// given second; nothing was downloaded.
    UpdateAvailable(String, String),
    /// The release was downloaded and moved into place.
    Updated(String),
}

/// Where an update check stands.
#[derive(Debug, PartialEq, Eq)]
pub enum UpdateState {
    /// Waiting for the latest release metadata.
    Fetching,
    /// Waiting for the directory of the running executable.
    Locating(String),
    /// Waiting for the download of the given tag.
    Downloading(String),
    /// Waiting for the download to be moved onto the executable.
    Installing(String),
    /// Nothing more to do.
    Finished,
}

/// What the caller saw when it performed the last action.
#[derive(Debug, PartialEq, Eq)]
pub enum UpdateEvent {
    /// The latest release metadata.
    ReleaseFetched(RemoteRelease),
    /// The name of the directory that holds the running executable, `None`
    /// when it has no parent directory with a name.
    ExeDirLocated(Option<String>),
    /// The release binary is in a temporary file.
    Downloaded,
    /// The temporary file was renamed onto the executable.
    Installed,
    /// The last action failed.
    Failed(ReleaseError),
}

/// What the caller is to do next.
#[derive(Debug, PartialEq, Eq)]
pub enum UpdateAction {
    /// Fetch the latest release metadata.
    FetchLatestRelease,
    /// Find the directory of the running executable.
    LocateExeDir,
    /// Download the release binary from this URL into a temporary file.
    Download(String),
    /// Rename the temporary file onto the executable, in one step.
    Install,
    /// Stop, with this result.
    Finish(Result<UpdateOutcome, ReleaseError>),
}

/// The characters of `bin`.
pub open spec fn bin_dir_name() -> Seq<char> {
    seq!['b', 'i', 'n']
}

/// Whether `state` waits for `event`: a failure ends any unfinished state.
pub open spec fn accepts(state: UpdateState, event: UpdateEvent) -> bool {
    match event {
        UpdateEvent::Failed(_) => !(state is Finished),
        UpdateEvent::ReleaseFetched(_) => state is Fetching,
        UpdateEvent::ExeDirLocated(_) => state is Locating,
        UpdateEvent::Downloaded => state is Downloading,
        UpdateEvent::Installed => state is Installing,
    }
}

/// The download URL of the release `tag` from `source`, for the platform's
/// asset; `None` when the platform has no asset.
pub open spec fn release_url(source: ReleaseSource, asset: Option<&str>, tag: Seq<char>) -> Option<
    Seq<char>,
> {
    match asset {
        Some(a) => Some(asset_url(source.owner@, source.repo@, tag, a@)),
        None => None,
    }
}

/// Whether `r` is a report of the release `tag`, to be downloaded from `url`.
pub open spec fn is_report(r: (UpdateState, UpdateAction), tag: String, url: Seq<char>) -> bool {
    &&& r.0 is Finished
    &&& r.1 matches UpdateAction::Finish(Ok(UpdateOutcome::UpdateAvailable(t, u)))
    &&& t == tag
    &&& u@ == url
}

/// Whether `r` is the download of the release `tag` from `url`.
pub open spec fn is_download(r: (UpdateState, UpdateAction), tag: String, url: Seq<char>) -> bool {
    &&& r.0 == UpdateState::Downloading(tag)
    &&& r.1 matches UpdateAction::Download(u)
    &&& u@ == url
}

/// Whether `r` is the decision once the remote tag is known: up to date when
/// the two version numbers are equal; otherwise an install when `download` is
/// set, or else a report with the download URL.
pub open spec fn is_decision(
    download: bool,
    source: ReleaseSource,
    asset: Option<&str>,
    local_tag: Seq<char>,
    remote_tag: String,
    r: (UpdateState, UpdateAction),
) -> bool {
    match (remote_version(remote_tag@), local_version(local_tag)) {
        (Some(a), Some(b)) => if a == b {
            r == (UpdateState::Finished, UpdateAction::Finish(Ok(UpdateOutcome::UpToDate(remote_tag))))
        } else if download {
            r == (UpdateState::Locating(remote_tag), UpdateAction::LocateExeDir)
        } else {
            match release_url(source, asset, remote_tag@) {
                Some(url) => is_report(r, remote_tag, url),
                None => r == (
                    UpdateState::Finished,
                    UpdateAction::Finish(Err(ReleaseError::UrlResolutionError)),
                ),
            }
        },
        _ => r == (UpdateState::Finished, UpdateAction::Finish(Err(ReleaseError::MalformedTag))),
    }
}

/// Whether `r` is the next state and action after `event` in `state`.
pub open spec fn is_next_step(
    download: bool,
    source: ReleaseSource,
    asset: Option<&str>,
    local_tag: Seq<char>,
    state: UpdateState,
    event: UpdateEvent,
    r: (UpdateState, UpdateAction),
) -> bool {
    match event {
        UpdateEvent::Failed(e) => r == (UpdateState::Finished, UpdateAction::Finish(Err(e))),
        UpdateEvent::ReleaseFetched(release) => is_decision(
            download,
            source,
            asset,
            local_tag,
            release.tag_name,
            r,
        ),
        UpdateEvent::ExeDirLocated(dir) => {
            let tag = state->Locating_0;
            if !(dir matches Some(name) && name@ == bin_dir_name()) {
                r == (
                    UpdateState::Finished,
                    UpdateAction::Finish(Err(ReleaseError::InstallLocationError)),
                )
            } else {
                match release_url(source, asset, tag@) {
                    Some(url) => is_download(r, tag, url),
                    None => r == (
                        UpdateState::Finished,
                        UpdateAction::Finish(Err(ReleaseError::UrlResolutionError)),
                    ),
                }
            }
        },
        UpdateEvent::Downloaded => r == (
            UpdateState::Installing(state->Downloading_0),
            UpdateAction::Install,
        ),
        UpdateEvent::Installed => r == (
            UpdateState::Finished,
            UpdateAction::Finish(Ok(UpdateOutcome::Updated(state->Installing_0))),
        ),
    }
}

fn is_bin_dir_name(name: &str) -> (r: bool)
    ensures
        r == (name@ == bin_dir_name()),
{
    if name.unicode_len() != 3 {
        return false;
    }
    let r = name.get_char(0) == 'b' && name.get_char(1) == 'i' && name.get_char(2) == 'n';
    assert(r ==> name@ =~= bin_dir_name());
    r
}

impl CheckRelease {
    /// The first state and action of an update check: fetch the latest release.
    pub fn begin(&self) -> (r: (UpdateState, UpdateAction))
        ensures
            r == (UpdateState::Fetching, UpdateAction::FetchLatestRelease),
    {
        (UpdateState::Fetching, UpdateAction::FetchLatestRelease)
    }

    /// The next state and action of the update check of `local_tag`, after
    /// `event` in `state`. Releases come from `source`; `asset` is the name of
    /// this platform's release binary, `None` when there is none.
    pub fn step(
        &self,
        source: &ReleaseSource,
        asset: Option<&str>,
        local_tag: &str,
        state: UpdateState,
        event: UpdateEvent,
    ) -> (r: (UpdateState, UpdateAction))
        requires
            accepts(state, event),
        ensures
            is_next_step(self.download, *source, asset, local_tag@, state, event, r),
    {
        match event {
            UpdateEvent::Failed(e) => (UpdateState::Finished, UpdateAction::Finish(Err(e))),
            UpdateEvent::ReleaseFetched(release) => {
                let remote_tag = release.tag_name;
                let remote_version = extract_remote_version_number(remote_tag.as_str());
                let local_version = extract_local_version_number(local_tag);
                match (remote_version, local_version) {
                    (Ok(r), Ok(l)) => {
                        if r == l {
                            (
                                UpdateState::Finished,
                                UpdateAction::Finish(Ok(UpdateOutcome::UpToDate(remote_tag))),
                            )
                        } else if self.download {
                            (UpdateState::Locating(remote_tag), UpdateAction::LocateExeDir)
                        } else {
                            match asset {
                                Some(a) => {
                                    let url = source.download_url(remote_tag.as_str(), a);
                                    (
                                        UpdateState::Finished,
                                        UpdateAction::Finish(
                                            Ok(UpdateOutcome::UpdateAvailable(remote_tag, url)),
                                        ),
                                    )
                                },
                                None => (
                                    UpdateState::Finished,
                                    UpdateAction::Finish(Err(ReleaseError::UrlResolutionError)),
                                ),
                            }
                        }
                    },
                    _ => (
                        UpdateState::Finished,
                        UpdateAction::Finish(Err(ReleaseError::MalformedTag)),
                    ),
                }
            },
            UpdateEvent::ExeDirLocated(dir) => {
                let tag = match state {
                    UpdateState::Locating(tag) => tag,
                    _ => {
                        assert(false);
                        String::new()
                    },
                };
                let is_bin = match &dir {
                    Some(name) => is_bin_dir_name(name.as_str()),
                    None => false,
                };
                if !is_bin {
                    return (
                        UpdateState::Finished,
                        UpdateAction::Finish(Err(ReleaseError::InstallLocationError)),
                    );
                }
                match asset {
                    Some(a) => {
                        let url = source.download_url(tag.as_str(), a);
                        (UpdateState::Downloading(tag), UpdateAction::Download(url))
                    },
                    None => (
                        UpdateState::Finished,
                        UpdateAction::Finish(Err(ReleaseError::UrlResolutionError)),
                    ),
                }
            },
            UpdateEvent::Downloaded => {
                let tag = match state {
                    UpdateState::Downloading(tag) => tag,
                    _ => {
                        assert(false);
                        String::new()
                    },
                };
                (UpdateState::Installing(tag), UpdateAction::Install)
            },
            UpdateEvent::Installed => {
                let tag = match state {
                    UpdateState::Installing(tag) => tag,
                    _ => {
                        assert(false);
                        String::new()
                    },
                };
                (UpdateState::Finished, UpdateAction::Finish(Ok(UpdateOutcome::Updated(tag))))
            },
        }
    }
}

} // verus!

verus! {

/// When the remote and local version numbers are equal, the check ends up to
/// date as soon as the release metadata is in: nothing is downloaded.
pub proof fn lemma_equal_versions_up_to_date(
    download: bool,
    source: ReleaseSource,
    asset: Option<&str>,
    local_tag: Seq<char>,
    release: RemoteRelease,
    r: (UpdateState, UpdateAction),
)
    requires
        remote_version(release.tag_name@) is Some,
        remote_version(release.tag_name@) == local_version(local_tag),
        is_next_step(
            download,
            source,
            asset,
            local_tag,
            UpdateState::Fetching,
            UpdateEvent::ReleaseFetched(release),
            r,
        ),
    ensures
        r == (
            UpdateState::Finished,
            UpdateAction::Finish(Ok(UpdateOutcome::UpToDate(release.tag_name))),
        ),
{
}

/// When the version numbers differ and no download is asked for, the check
/// ends with a report of the remote tag and the URL of the platform's asset,
/// and no file action is asked for.
pub proof fn lemma_differing_versions_report(
    source: ReleaseSource,
    asset: &str,
    local_tag: Seq<char>,
    release: RemoteRelease,
    r: (UpdateState, UpdateAction),
)
    requires
        remote_version(release.tag_name@) is Some,
        local_version(local_tag) is Some,
        remote_version(release.tag_name@) != local_version(local_tag),
        is_next_step(
            false,
            source,
            Some(asset),
            local_tag,
            UpdateState::Fetching,
            UpdateEvent::ReleaseFetched(release),
            r,
        ),
    ensures
        is_report(
            r,
            release.tag_name,
            asset_url(source.owner@, source.repo@, release.tag_name@, asset@),
        ),
{
}

/// When the version numbers differ, a download is asked for and the
/// executable lies in a directory named `bin`, the check locates that
/// directory, downloads the platform's asset of the remote tag, moves the
/// download onto the executable and ends updated, with no other action between.
pub proof fn lemma_differing_versions_install(
    source: ReleaseSource,
    asset: &str,
    local_tag: Seq<char>,
    release: RemoteRelease,
    dir: String,
    r1: (UpdateState, UpdateAction),
    r2: (UpdateState, UpdateAction),
    r3: (UpdateState, UpdateAction),
    r4: (UpdateState, UpdateAction),
)
    requires
        remote_version(release.tag_name@) is Some,
        local_version(local_tag) is Some,
        remote_version(release.tag_name@) != local_version(local_tag),
        dir@ == bin_dir_name(),
        is_next_step(
            true,
            source,
            Some(asset),
            local_tag,
            UpdateState::Fetching,
            UpdateEvent::ReleaseFetched(release),
            r1,
        ),
        is_next_step(
            true,
            source,
            Some(asset),
            local_tag,
            r1.0,
            UpdateEvent::ExeDirLocated(Some(dir)),
            r2,
        ),
        is_next_step(true, source, Some(asset), local_tag, r2.0, UpdateEvent::Downloaded, r3),
        is_next_step(true, source, Some(asset), local_tag, r3.0, UpdateEvent::Installed, r4),
    ensures
        r1 == (UpdateState::Locating(release.tag_name), UpdateAction::LocateExeDir),
        accepts(r1.0, UpdateEvent::ExeDirLocated(Some(dir))),
        is_download(
            r2,
            release.tag_name,
            asset_url(source.owner@, source.repo@, release.tag_name@, asset@),
        ),
        accepts(r2.0, UpdateEvent::Downloaded),
        r3 == (UpdateState::Installing(release.tag_name), UpdateAction::Install),
        accepts(r3.0, UpdateEvent::Installed),
        r4 == (
            UpdateState::Finished,
            UpdateAction::Finish(Ok(UpdateOutcome::Updated(release.tag_name))),
        ),
{
}

/// When the executable does not lie in a directory named `bin`, the check
/// ends with an install location error and downloads nothing.
pub proof fn lemma_wrong_install_location(
    download: bool,
    source: ReleaseSource,
    asset: Option<&str>,
    local_tag: Seq<char>,
    tag: String,
    dir: Option<String>,
    r: (UpdateState, UpdateAction),
)
    requires
        !(dir matches Some(name) && name@ == bin_dir_name()),
        is_next_step(
            download,
            source,
            asset,
            local_tag,
            UpdateState::Locating(tag),
            UpdateEvent::ExeDirLocated(dir),
            r,
        ),
    ensures
        r == (
            UpdateState::Finished,
            UpdateAction::Finish(Err::<UpdateOutcome, ReleaseError>(ReleaseError::InstallLocationError)),
        ),
{
}

} // verus!
