//! Updating the program to its latest signed release.
use vstd::prelude::*;

use crate::text::{join, same_text};

verus! {

/// Where the releases are published.
pub const REPO_OWNER: &'static str = "dmnd-pool";

pub const REPO_NAME: &'static str = "dmnd-client";

pub const BIN_NAME: &'static str = "dmnd-client";

/// The access rights of the installed program.
pub const EXECUTABLE_MODE: u32 = 0o755;

/// A file of a release.
#[derive(Debug)]
pub struct ReleaseAsset {
    pub name: String,
    pub download_url: String,
}

/// A published release.
#[derive(Debug)]
pub struct Release {
    pub version: String,
    pub assets: Vec<ReleaseAsset>,
}

/// What `self_update::version::bump_is_greater` says of two versions.
pub uninterp spec fn version_bump(current: Seq<char>, other: Seq<char>) -> Option<bool>;

/// `self_update::version::bump_is_greater`: whether the other version is greater
/// than the current one; nothing where one of them is not a semantic version.
#[verifier::external_body]
fn bump_is_greater(current: &str, other: &str) -> (r: Option<bool>)
    ensures
        r == version_bump(current@, other@),
{
    self_update::version::bump_is_greater(current, other).ok()
}

/// The message with which `minisign_verify` rejects a signature text of a binary
/// under the text of a public key, legacy signatures being allowed or not; nothing
/// where it accepts it.
pub uninterp spec fn minisign_rejection(
    public_key: Seq<char>,
    signature: Seq<char>,
    binary: Seq<u8>,
    allow_legacy: bool,
) -> Option<Seq<char>>;

/// `minisign_verify::PublicKey::verify`, the key and the signature decoded from
/// their texts by `PublicKey::decode` and `Signature::decode`: the error of the
/// first of the three that fails, as a message. The outcome is a function of the
/// two texts, the binary and whether legacy signatures are allowed.
#[verifier::external_body]
fn minisign_verify(
    public_key: &str,
    signature: &str,
    binary: &Vec<u8>,
    allow_legacy: bool,
) -> (r: Result<(), String>)
    ensures
        (match r {
            Ok(_) => None,
            Err(message) => Some(message@),
        }) == minisign_rejection(public_key@, signature@, binary@, allow_legacy),
{
    let key = minisign_verify::PublicKey::decode(public_key).map_err(|e| e.to_string())?;
    let signature = minisign_verify::Signature::decode(signature).map_err(|e| e.to_string())?;
    key.verify(binary, &signature, allow_legacy).map_err(|e| e.to_string())
}

/// The name of the program's file for an operating system.
pub open spec fn target_bin_name(os: Seq<char>) -> Option<Seq<char>> {
    if os == "linux"@ {
        Some("dmnd-client-linux"@)
    } else if os == "macos"@ {
        Some("dmnd-client-macos"@)
    } else if os == "windows"@ {
        Some("dmnd-client-windows.exe"@)
    } else {
        None
    }
}

/// The name of the program's file for an operating system, where there is one.
pub fn target_bin(os: &str) -> (r: Option<String>)
    ensures
        (match r {
            Some(name) => Some(name@),
            None => None,
        }) == target_bin_name(os@),
{
    if same_text(os, "linux") {
        Some("dmnd-client-linux".to_owned())
    } else if same_text(os, "macos") {
        Some("dmnd-client-macos".to_owned())
    } else if same_text(os, "windows") {
        Some("dmnd-client-windows.exe".to_owned())
    } else {
        None
    }
}

/// The name of the signature of a file.
pub open spec fn signature_name(target_bin: Seq<char>) -> Seq<char> {
    target_bin + ".minisig"@
}

/// Whether a release has a file of the given name.
pub open spec fn has_asset(assets: Seq<ReleaseAsset>, name: Seq<char>) -> bool {
    exists|i: int| 0 <= i < assets.len() && (#[trigger] assets[i]).name@ == name
}

/// Whether a file is the first of the given name.
pub open spec fn is_first_asset(assets: Seq<ReleaseAsset>, name: Seq<char>, i: int) -> bool {
    &&& 0 <= i < assets.len()
    &&& assets[i].name@ == name
    &&& forall|j: int| 0 <= j < i ==> (#[trigger] assets[j]).name@ != name
}

/// The addresses of all files of the given name, in order.
pub open spec fn asset_urls(assets: Seq<ReleaseAsset>, name: Seq<char>) -> Seq<Seq<char>>
    decreases assets.len(),
{
    if assets.len() == 0 {
        Seq::empty()
    } else if assets.last().name@ == name {
        asset_urls(assets.drop_last(), name).push(assets.last().download_url@)
    } else {
        asset_urls(assets.drop_last(), name)
    }
}

fn find_asset(assets: &Vec<ReleaseAsset>, name: &str) -> (r: Option<usize>)
    ensures
        match r {
            Some(i) => is_first_asset(assets@, name@, i as int),
            None => !has_asset(assets@, name@),
        },
{
    for i in 0..assets.len()
        invariant
            forall|j: int| 0 <= j < i ==> (#[trigger] assets@[j]).name@ != name@,
    {
        if same_text(assets[i].name.as_str(), name) {
            return Some(i);
        }
    }
    None
}

fn collect_urls(assets: &Vec<ReleaseAsset>, name: &str) -> (r: Vec<String>)
    ensures
        r@.map_values(|url: String| url@) == asset_urls(assets@, name@),
{
    let mut urls: Vec<String> = Vec::new();
    for i in 0..assets.len()
        invariant
            urls@.map_values(|url: String| url@) == asset_urls(assets@.take(i as int), name@),
    {
        proof {
            assert(assets@.take(i + 1).drop_last() =~= assets@.take(i as int));
            assert(assets@.take(i + 1).last() == assets@[i as int]);
        }
        let ghost before = urls@;
        if same_text(assets[i].name.as_str(), name) {
            urls.push(assets[i].download_url.clone());
            proof {
                assert(urls@.map_values(|url: String| url@) =~= before.map_values(
                    |url: String| url@,
                ).push(assets@[i as int].download_url@));
            }
        }
    }
    proof {
        assert(assets@.take(assets@.len() as int) =~= assets@);
    }
    urls
}

/// Whether a release is to be installed.
#[derive(Debug, Clone, Copy, PartialEq, Eq, Structural)]
pub enum ReleaseVerdict {
    /// It is not newer than the running program.
    UpToDate,
    /// It is newer but has no signed file for this system.
    NoSignedUpdate,
    /// It is newer and signed.
    Install,
}

/// Whether a release with the given comparison of versions and files is to be
/// installed.
pub open spec fn release_verdict(
    newer: Option<bool>,
    assets: Seq<ReleaseAsset>,
    target_bin: Seq<char>,
) -> ReleaseVerdict {
    if newer != Some(true) {
        ReleaseVerdict::UpToDate
    } else if !has_asset(assets, target_bin) || !has_asset(assets, signature_name(target_bin)) {
        ReleaseVerdict::NoSignedUpdate
    } else {
        ReleaseVerdict::Install
    }
}

/// Whether a release is to be installed, given how its version compares: versions
/// that cannot be compared count as not newer.
pub fn judge_release(newer: Option<bool>, assets: &Vec<ReleaseAsset>, target_bin: &str) -> (r:
    ReleaseVerdict)
    ensures
        r == release_verdict(newer, assets@, target_bin@),
{
    let is_newer = match newer {
        Some(b) => b,
        None => false,
    };
    if !is_newer {
        return ReleaseVerdict::UpToDate;
    }
    let signature = join(target_bin, ".minisig");
    let binary_there = find_asset(assets, target_bin).is_some();
    let signature_there = find_asset(assets, signature.as_str()).is_some();
    if binary_there && signature_there {
        ReleaseVerdict::Install
    } else {
        ReleaseVerdict::NoSignedUpdate
    }
}

/// The address of the signature of a file, or the message that the release has
/// none.
pub fn signature_url(assets: &Vec<ReleaseAsset>, target_bin: &str) -> (r: Result<String, String>)
    ensures
        match r {
            Ok(url) => exists|i: int| #[trigger]
                is_first_asset(assets@, signature_name(target_bin@), i)
                    && url@ == assets@[i].download_url@,
            Err(message) => {
                &&& !has_asset(assets@, signature_name(target_bin@))
                &&& message@ == "Release is missing "@ + signature_name(target_bin@)
            },
        },
{
    let signature = join(target_bin, ".minisig");
    match find_asset(assets, signature.as_str()) {
        Some(i) => {
            proof {
                assert(is_first_asset(assets@, signature_name(target_bin@), i as int));
            }
            Ok(assets[i].download_url.clone())
        },
        None => Err(join("Release is missing ", signature.as_str())),
    }
}

/// Verifies the signature of a downloaded file under a public key; legacy
/// signatures are not allowed. The message says why it is rejected.
pub fn verify_signature(public_key: &str, signature: &str, binary: &Vec<u8>) -> (r: Result<
    (),
    String,
>)
    ensures
        (match r {
            Ok(_) => None,
            Err(message) => Some(message@),
        }) == minisign_rejection(public_key@, signature@, binary@, false),
{
    minisign_verify(public_key, signature, binary, false)
}

/// The arguments with which the new program is started: those of the running one
/// without the program's name.
pub fn restart_args(args: Vec<String>) -> (r: Vec<String>)
    ensures
        r@ == (if args@.len() == 0 {
            args@
        } else {
            args@.skip(1)
        }),
{
    let mut args = args;
    if args.len() > 0 {
        let ghost before = args@;
        let _ = args.remove(0);
        proof {
            assert(args@ =~= before.skip(1));
        }
    }
    args
}

/// How far an update has come.
#[derive(Debug)]
pub enum UpdateStage {
    /// The updater is being configured.
    Configuring,
    /// The latest release is being looked up.
    FetchingRelease,
    /// The updater is at work.
    Updating,
    /// The program's file of this release is being downloaded.
    DownloadingBinary(Release),
    /// The signature of the file is being downloaded.
    DownloadingSignature,
    /// The file is being moved to its place.
    Installing,
    /// The file is being made executable.
    SettingPermissions,
    /// The new program is being started.
    Restarting,
    /// Nothing more is done.
    Stopped,
}

/// An update of the running program.
#[derive(Debug)]
pub struct Update {
    /// The name of the program's file.
    pub target_bin: String,
    /// The version of the running program.
    pub current_version: String,
    /// The text of the public key that releases are signed with.
    pub release_public_key: String,
    /// Whether this system is a Unix.
    pub unix: bool,
    pub stage: UpdateStage,
}

/// What the updater reported.
#[derive(Debug)]
pub enum UpdateStatus {
    Failed,
    UpToDate,
    Updated(Release),
}

/// What happened in the course of an update.
#[derive(Debug)]
pub enum UpdateEvent {
    /// The updater was configured, or that failed.
    Configured { ok: bool },
    /// The latest release, where it could be looked up.
    LatestRelease(Option<Release>),
    /// The updater is done.
    UpdateDone(UpdateStatus),
    /// The program's file was downloaded.
    BinaryDownloaded,
    /// The signature's text and the file's bytes, where both could be got.
    SignatureDownloaded(Option<(String, Vec<u8>)>),
    /// The file was moved, or that failed.
    Renamed { ok: bool },
    /// The access rights were set, or that failed.
    PermissionsSet { ok: bool },
    /// Starting the new program returned.
    RestartReturned,
}

/// Why an update stops.
#[derive(Debug)]
pub enum StopReason {
    ConfigurationFailed,
    ReleaseUnavailable,
    UpToDate,
    NoSignedUpdate,
    UpdateFailed,
    /// The signature is missing, with a message.
    SignatureMissing(String),
    /// The signature or the file could not be read.
    SignatureUnreadable,
    /// The signature does not verify, with a message.
    SignatureRejected(String),
    RenameFailed,
    PermissionsFailed,
}

/// What to do next in the course of an update.
#[derive(Debug)]
pub enum UpdateAction {
    /// Look the latest release up.
    FetchLatestRelease,
    /// Run the updater.
    RunUpdater,
    /// Download the file from these addresses, one after the other, each over the
    /// one before.
    DownloadBinary(Vec<String>),
    /// Download the signature from this address.
    DownloadSignature(String),
    /// Move the file to the place of the running program.
    Install,
    /// Give the installed file these access rights.
    SetPermissions { mode: u32 },
    /// Start the new program.
    Restart,
    /// End the process with this exit code.
    Exit(i32),
    /// Stop and keep the running program.
    Stop(StopReason),
}

/// Whether an event can come at a stage.
pub open spec fn event_due(stage: UpdateStage, event: UpdateEvent) -> bool {
    match stage {
        UpdateStage::Configuring => event is Configured,
        UpdateStage::FetchingRelease => event is LatestRelease,
        UpdateStage::Updating => event is UpdateDone,
        UpdateStage::DownloadingBinary(_) => event is BinaryDownloaded,
        UpdateStage::DownloadingSignature => event is SignatureDownloaded,
        UpdateStage::Installing => event is Renamed,
        UpdateStage::SettingPermissions => event is PermissionsSet,
        UpdateStage::Restarting => event is RestartReturned,
        UpdateStage::Stopped => false,
    }
}

/// Whether a stage and an action are what follows the verdict on the latest release.
pub open spec fn is_verdict_step(
    verdict: ReleaseVerdict,
    stage: UpdateStage,
    action: UpdateAction,
) -> bool {
    match verdict {
        ReleaseVerdict::UpToDate => stage is Stopped && action == UpdateAction::Stop(
            StopReason::UpToDate,
        ),
        ReleaseVerdict::NoSignedUpdate => stage is Stopped && action == UpdateAction::Stop(
            StopReason::NoSignedUpdate,
        ),
        ReleaseVerdict::Install => stage is Updating && action is RunUpdater,
    }
}

/// Whether a stage and an action are what follows the verification of a signature,
/// given the message with which it was rejected, if it was.
pub open spec fn is_signature_step(
    rejection: Option<Seq<char>>,
    stage: UpdateStage,
    action: UpdateAction,
) -> bool {
    match rejection {
        None => stage is Installing && action is Install,
        Some(message) => {
            &&& stage is Stopped
            &&& action matches UpdateAction::Stop(StopReason::SignatureRejected(m)) && m@ == message
        },
    }
}

/// Whether a stage and an action are what follows an event in an update.
pub open spec fn is_update_step(
    update: Update,
    event: UpdateEvent,
    stage: UpdateStage,
    action: UpdateAction,
) -> bool {
    match event {
        UpdateEvent::Configured { ok } => if ok {
            stage is FetchingRelease && action is FetchLatestRelease
        } else {
            stage is Stopped && action == UpdateAction::Stop(StopReason::ConfigurationFailed)
        },
        UpdateEvent::LatestRelease(None) => stage is Stopped && action == UpdateAction::Stop(
            StopReason::ReleaseUnavailable,
        ),
        UpdateEvent::LatestRelease(Some(release)) => is_verdict_step(
            release_verdict(
                version_bump(update.current_version@, release.version@),
                release.assets@,
                update.target_bin@,
            ),
            stage,
            action,
        ),
        UpdateEvent::UpdateDone(UpdateStatus::Failed) => stage is Stopped && action
            == UpdateAction::Stop(StopReason::UpdateFailed),
        UpdateEvent::UpdateDone(UpdateStatus::UpToDate) => stage is Stopped && action
            == UpdateAction::Stop(StopReason::UpToDate),
        UpdateEvent::UpdateDone(UpdateStatus::Updated(release)) => {
            &&& stage == UpdateStage::DownloadingBinary(release)
            &&& action matches UpdateAction::DownloadBinary(urls) && urls@.map_values(
                |url: String| url@,
            ) == asset_urls(release.assets@, update.target_bin@)
        },
        UpdateEvent::BinaryDownloaded => {
            let assets = (update.stage->DownloadingBinary_0).assets@;
            let name = signature_name(update.target_bin@);
            if has_asset(assets, name) {
                &&& stage is DownloadingSignature
                &&& action matches UpdateAction::DownloadSignature(url) && exists|i: int| #[trigger]
                    is_first_asset(assets, name, i) && url@ == assets[i].download_url@
            } else {
                &&& stage is Stopped
                &&& action matches UpdateAction::Stop(StopReason::SignatureMissing(message))
                    && message@ == "Release is missing "@ + name
            }
        },
        UpdateEvent::SignatureDownloaded(None) => stage is Stopped && action
            == UpdateAction::Stop(StopReason::SignatureUnreadable),
        UpdateEvent::SignatureDownloaded(Some((signature, binary))) => is_signature_step(
            minisign_rejection(update.release_public_key@, signature@, binary@, false),
            stage,
            action,
        ),
        UpdateEvent::Renamed { ok } => if !ok {
            stage is Stopped && action == UpdateAction::Stop(StopReason::RenameFailed)
        } else if update.unix {
            stage is SettingPermissions && action == UpdateAction::SetPermissions {
                mode: EXECUTABLE_MODE,
            }
        } else {
            stage is Restarting && action is Restart
        },
        UpdateEvent::PermissionsSet { ok } => if ok {
            stage is Restarting && action is Restart
        } else {
            stage is Stopped && action == UpdateAction::Stop(StopReason::PermissionsFailed)
        },
        UpdateEvent::RestartReturned => stage is Stopped && action == UpdateAction::Exit(
            if update.unix {
                1
            } else {
                0
            },
        ),
    }
}

impl Update {
    /// An update of a program for the given file of a release.
    pub fn new(
        target_bin: String,
        current_version: String,
        release_public_key: String,
        unix: bool,
    ) -> (r: Update)
        ensures
            r.target_bin == target_bin,
            r.current_version == current_version,
            r.release_public_key == release_public_key,
            r.unix == unix,
            r.stage is Configuring,
    {
        Update {
            target_bin,
            current_version,
            release_public_key,
            unix,
            stage: UpdateStage::Configuring,
        }
    }

    fn stop(&mut self, reason: StopReason) -> (r: UpdateAction)
        ensures
            *final(self) == (Update { stage: UpdateStage::Stopped, ..*old(self) }),
            r == UpdateAction::Stop(reason),
    {
        self.stage = UpdateStage::Stopped;
        UpdateAction::Stop(reason)
    }

    /// The step after the latest release was looked up, given how its version
    /// compares to the running program's.
    pub fn on_latest_release(&mut self, newer: Option<bool>, release: &Release) -> (r: UpdateAction)
        ensures
            is_verdict_step(
                release_verdict(newer, release.assets@, old(self).target_bin@),
                final(self).stage,
                r,
            ),
            *final(self) == (Update { stage: final(self).stage, ..*old(self) }),
    {
        match judge_release(newer, &release.assets, self.target_bin.as_str()) {
            ReleaseVerdict::UpToDate => self.stop(StopReason::UpToDate),
            ReleaseVerdict::NoSignedUpdate => self.stop(StopReason::NoSignedUpdate),
            ReleaseVerdict::Install => {
                self.stage = UpdateStage::Updating;
                UpdateAction::RunUpdater
            },
        }
    }

    /// The step after the signature of the downloaded file was verified, or rejected
    /// with a message.
    pub fn on_signature_checked(&mut self, verdict: Result<(), String>) -> (r: UpdateAction)
        ensures
            is_signature_step(
                match verdict {
                    Ok(_) => None,
                    Err(message) => Some(message@),
                },
                final(self).stage,
                r,
            ),
            *final(self) == (Update { stage: final(self).stage, ..*old(self) }),
    {
        match verdict {
            Ok(_) => {
                self.stage = UpdateStage::Installing;
                UpdateAction::Install
            },
            Err(message) => self.stop(StopReason::SignatureRejected(message)),
        }
    }
}

/// The next step of an update. A newer release that is signed is downloaded; it
/// takes the place of the running program, which is then started anew, only
/// if its signature verifies.
pub fn check_update_proxy(update: &mut Update, event: UpdateEvent) -> (r: UpdateAction)
    requires
        event_due(old(update).stage, event),
    ensures
        is_update_step(*old(update), event, final(update).stage, r),
        *final(update) == (Update { stage: final(update).stage, ..*old(update) }),
{
    match event {
        UpdateEvent::Configured { ok } => {
            if !ok {
                return update.stop(StopReason::ConfigurationFailed);
            }
            update.stage = UpdateStage::FetchingRelease;
            UpdateAction::FetchLatestRelease
        },
        UpdateEvent::LatestRelease(None) => update.stop(StopReason::ReleaseUnavailable),
        UpdateEvent::LatestRelease(Some(release)) => {
            let newer = bump_is_greater(
                update.current_version.as_str(),
                release.version.as_str(),
            );
            update.on_latest_release(newer, &release)
        },
        UpdateEvent::UpdateDone(UpdateStatus::Failed) => update.stop(StopReason::UpdateFailed),
        UpdateEvent::UpdateDone(UpdateStatus::UpToDate) => update.stop(StopReason::UpToDate),
        UpdateEvent::UpdateDone(UpdateStatus::Updated(release)) => {
            let urls = collect_urls(&release.assets, update.target_bin.as_str());
            update.stage = UpdateStage::DownloadingBinary(release);
            UpdateAction::DownloadBinary(urls)
        },
        UpdateEvent::BinaryDownloaded => {
            let url = match &update.stage {
                UpdateStage::DownloadingBinary(release) => signature_url(
                    &release.assets,
                    update.target_bin.as_str(),
                ),
                _ => Err(String::new()),
            };
            match url {
                Ok(url) => {
                    update.stage = UpdateStage::DownloadingSignature;
                    UpdateAction::DownloadSignature(url)
                },
                Err(message) => update.stop(StopReason::SignatureMissing(message)),
            }
        },
        UpdateEvent::SignatureDownloaded(None) => update.stop(StopReason::SignatureUnreadable),
        UpdateEvent::SignatureDownloaded(Some((signature, binary))) => {
            let verdict = verify_signature(
                update.release_public_key.as_str(),
                signature.as_str(),
                &binary,
            );
            update.on_signature_checked(verdict)
        },
        UpdateEvent::Renamed { ok } => {
            if !ok {
                return update.stop(StopReason::RenameFailed);
            }
            if update.unix {
                update.stage = UpdateStage::SettingPermissions;
                UpdateAction::SetPermissions { mode: EXECUTABLE_MODE }
            } else {
                update.stage = UpdateStage::Restarting;
                UpdateAction::Restart
            }
        },
        UpdateEvent::PermissionsSet { ok } => {
            if !ok {
                return update.stop(StopReason::PermissionsFailed);
            }
            update.stage = UpdateStage::Restarting;
            UpdateAction::Restart
        },
        UpdateEvent::RestartReturned => {
            update.stage = UpdateStage::Stopped;
            UpdateAction::Exit(
                if update.unix {
                    1
                } else {
                    0
                },
            )
        },
    }
}

/// A file takes the place of the running program only after its signature was
/// accepted under the release key; nothing else leads to the stages of
/// installing.
pub proof fn only_verified_files_are_installed(
    update: Update,
    event: UpdateEvent,
    stage: UpdateStage,
    action: UpdateAction,
)
    requires
        event_due(update.stage, event),
        is_update_step(update, event, stage, action),
    ensures
        action is Install <==> stage is Installing,
        action is Install ==> update.stage is DownloadingSignature && exists|
            signature: String,
            binary: Vec<u8>,
        |
            event == UpdateEvent::SignatureDownloaded(Some((signature, binary)))
                && #[trigger] minisign_rejection(
                update.release_public_key@,
                signature@,
                binary@,
                false,
            ) is None,
        stage is SettingPermissions ==> update.stage is Installing,
        stage is Restarting ==> update.stage is Installing || update.stage is SettingPermissions,
        action is Restart ==> stage is Restarting,
{
}

/// The updater is run only for a release that is newer than the running program
/// and has both the program's file and its signature.
pub proof fn only_newer_signed_releases_are_updated_to(
    update: Update,
    event: UpdateEvent,
    stage: UpdateStage,
    action: UpdateAction,
)
    requires
        event_due(update.stage, event),
        is_update_step(update, event, stage, action),
        action is RunUpdater,
    ensures
        event matches UpdateEvent::LatestRelease(Some(release)) && version_bump(
            update.current_version@,
            release.version@,
        ) == Some(true) && has_asset(release.assets@, update.target_bin@) && has_asset(
            release.assets@,
            signature_name(update.target_bin@),
        ),
{
}

/// The stages of an update follow each other: the updater is at work exactly where
/// it was told to run, the program's file is downloaded only when it is done, and
/// the signature only when the file is there.
pub proof fn stages_follow_each_other(
    update: Update,
    event: UpdateEvent,
    stage: UpdateStage,
    action: UpdateAction,
)
    requires
        event_due(update.stage, event),
        is_update_step(update, event, stage, action),
    ensures
        stage is FetchingRelease ==> update.stage is Configuring,
        stage is Updating <==> action is RunUpdater,
        stage is Updating ==> update.stage is FetchingRelease,
        stage is DownloadingBinary ==> update.stage is Updating,
        stage is DownloadingSignature ==> update.stage is DownloadingBinary,
        stage !is Configuring,
{
}

/// Whether stages and actions are those of an update from its start, through the
/// given events.
pub open spec fn is_update_run(
    update: Update,
    events: Seq<UpdateEvent>,
    stages: Seq<UpdateStage>,
    actions: Seq<UpdateAction>,
) -> bool {
    &&& stages.len() == events.len() + 1
    &&& actions.len() == events.len()
    &&& stages[0] is Configuring
    &&& forall|i: int|
        #![trigger events[i]]
        #![trigger actions[i]]
        0 <= i < events.len() ==> event_due(stages[i], events[i]) && is_update_step(
            (Update { stage: stages[i], ..update }),
            events[i],
            stages[i + 1],
            actions[i],
        )
}

/// In every run of an update, what is installed follows a latest release that is
/// newer than the running program and has both the program's file and its
/// signature, an updater that reported an update, and a signature that was
/// accepted, legacy signatures not being allowed, under the release key.
pub proof fn only_newer_signed_and_verified_releases_are_installed(
    update: Update,
    events: Seq<UpdateEvent>,
    stages: Seq<UpdateStage>,
    actions: Seq<UpdateAction>,
    k: int,
)
    requires
        is_update_run(update, events, stages, actions),
        0 <= k < actions.len(),
        actions[k] is Install,
    ensures
        k == 4,
        events[1] matches UpdateEvent::LatestRelease(Some(release)) && version_bump(
            update.current_version@,
            release.version@,
        ) == Some(true) && has_asset(release.assets@, update.target_bin@) && has_asset(
            release.assets@,
            signature_name(update.target_bin@),
        ),
        events[2] matches UpdateEvent::UpdateDone(UpdateStatus::Updated(release)) && has_asset(
            release.assets@,
            signature_name(update.target_bin@),
        ),
        events[4] matches UpdateEvent::SignatureDownloaded(Some((signature, binary)))
            && minisign_rejection(update.release_public_key@, signature@, binary@, false) is None,
{
    assert(events[k] is SignatureDownloaded);
    assert(stages[k] is DownloadingSignature);
    assert(k > 0);
    assert(events[k - 1] is BinaryDownloaded);
    assert(stages[k - 1] is DownloadingBinary);
    assert(events[k - 2] is UpdateDone);
    assert(stages[k - 2] is Updating);
    assert(events[k - 3] is LatestRelease);
    assert(stages[k - 3] is FetchingRelease);
    assert(events[k - 4] is Configured);
    assert(stages[k - 4] is Configuring);
    if k > 4 {
        assert(event_due(stages[k - 5], events[k - 5]));
    }
}

/// Once stopped, an update takes no further event: whatever stops it leaves the
/// running program in place, and only starting the new program ends the process.
pub proof fn a_stopped_update_is_over(
    update: Update,
    event: UpdateEvent,
    stage: UpdateStage,
    action: UpdateAction,
)
    requires
        event_due(update.stage, event),
        is_update_step(update, event, stage, action),
    ensures
        action is Stop ==> stage is Stopped,
        action is Exit ==> update.stage is Restarting,
        stage is Stopped ==> forall|next: UpdateEvent| !event_due(stage, next),
{
}

/// Each of the three systems has its file, and no other system has one.
pub proof fn three_systems_have_files(os: Seq<char>)
    ensures
        target_bin_name("linux"@) == Some("dmnd-client-linux"@),
        target_bin_name("macos"@) == Some("dmnd-client-macos"@),
        target_bin_name("windows"@) == Some("dmnd-client-windows.exe"@),
        os != "linux"@ && os != "macos"@ && os != "windows"@ ==> target_bin_name(os) is None,
{
    reveal_strlit("linux");
    reveal_strlit("macos");
    reveal_strlit("windows");
    assert("linux"@[0] != "macos"@[0]);
    assert("linux"@[0] != "windows"@[0]);
    assert("macos"@[0] != "windows"@[0]);
}

/// A signature is named after its file, with `.minisig` behind it.
pub proof fn a_signature_is_named_after_its_file(name: Seq<char>)
    ensures
        signature_name(name).len() == name.len() + ".minisig"@.len(),
        signature_name(name).take(name.len() as int) == name,
        signature_name(name).skip(name.len() as int) == ".minisig"@,
{
    assert(signature_name(name).take(name.len() as int) =~= name);
    assert(signature_name(name).skip(name.len() as int) =~= ".minisig"@);
}

/// A release has a file exactly where one of its files has the name, the first such
/// file is unique, and the addresses of all of them come in the order of the release.
pub proof fn files_are_found_by_their_names(
    assets: Seq<ReleaseAsset>,
    name: Seq<char>,
    i: int,
    j: int,
)
    ensures
        has_asset(assets, name) <==> assets.map_values(|a: ReleaseAsset| a.name@).contains(name),
        is_first_asset(assets, name, i) ==> 0 <= i < assets.len() && assets[i].name@ == name,
        is_first_asset(assets, name, i) && 0 <= j < i ==> assets[j].name@ != name,
        0 <= i < assets.len() && assets[i].name@ == name && (forall|k: int|
            0 <= k < i ==> (#[trigger] assets[k]).name@ != name) ==> is_first_asset(
            assets,
            name,
            i,
        ),
        asset_urls(assets, name) == assets.filter(|a: ReleaseAsset| a.name@ == name).map_values(
            |a: ReleaseAsset| a.download_url@,
        ),
{
    let names = assets.map_values(|a: ReleaseAsset| a.name@);
    if has_asset(assets, name) {
        let k = choose|k: int| 0 <= k < assets.len() && (#[trigger] assets[k]).name@ == name;
        assert(names[k] == name);
    }
    if names.contains(name) {
        let k = choose|k: int| 0 <= k < names.len() && names[k] == name;
        assert(assets[k].name@ == name);
    }
    lemma_urls_of_named_files(assets, name);
}

proof fn lemma_urls_of_named_files(assets: Seq<ReleaseAsset>, name: Seq<char>)
    ensures
        asset_urls(assets, name) == assets.filter(|a: ReleaseAsset| a.name@ == name).map_values(
            |a: ReleaseAsset| a.download_url@,
        ),
    decreases assets.len(),
{
    reveal(Seq::filter);
    let named = |a: ReleaseAsset| a.name@ == name;
    let url = |a: ReleaseAsset| a.download_url@;
    if assets.len() > 0 {
        lemma_urls_of_named_files(assets.drop_last(), name);
        let front = assets.drop_last().filter(named);
        assert(front.push(assets.last()).map_values(url) =~= front.map_values(url).push(
            assets.last().download_url@,
        ));
    }
    assert(asset_urls(assets, name) =~= assets.filter(named).map_values(url));
}

/// A release is installed if and only if it is newer and has both the file and its
/// signature; one that is newer without both is passed over, and one that is not
/// newer, or cannot be compared, means that the program is up to date.
pub proof fn newer_signed_releases_are_installed(
    newer: Option<bool>,
    assets: Seq<ReleaseAsset>,
    target_bin: Seq<char>,
)
    ensures
        release_verdict(newer, assets, target_bin) is Install <==> newer == Some(true)
            && has_asset(assets, target_bin) && has_asset(assets, target_bin + ".minisig"@),
        release_verdict(newer, assets, target_bin) is UpToDate <==> newer != Some(true),
        release_verdict(newer, assets, target_bin) is NoSignedUpdate <==> newer == Some(true) && !(
        has_asset(assets, target_bin) && has_asset(assets, target_bin + ".minisig"@)),
{
}

/// At every stage but the last, the work of the stage can end, however it ends, and
/// nothing else can happen.
pub proof fn every_stage_awaits_its_event(stage: UpdateStage, event: UpdateEvent)
    ensures
        stage is Configuring ==> (event_due(stage, event) <==> event is Configured),
        stage is FetchingRelease ==> (event_due(stage, event) <==> event is LatestRelease),
        stage is Updating ==> (event_due(stage, event) <==> event is UpdateDone),
        stage is DownloadingBinary ==> (event_due(stage, event) <==> event is BinaryDownloaded),
        stage is DownloadingSignature ==> (event_due(stage, event) <==> event
            is SignatureDownloaded),
        stage is Installing ==> (event_due(stage, event) <==> event is Renamed),
        stage is SettingPermissions ==> (event_due(stage, event) <==> event is PermissionsSet),
        stage is Restarting ==> (event_due(stage, event) <==> event is RestartReturned),
        stage is Stopped ==> !event_due(stage, event),
{
}

/// What succeeds leads on: a configured updater to the latest release, a newer signed
/// release to the updater, an update to the download of all files of the name, the
/// file to the download of its first signature, an accepted signature to the
/// installation, and the installed file, made executable on a Unix, to its start.
pub proof fn every_success_leads_on(
    update: Update,
    event: UpdateEvent,
    stage: UpdateStage,
    action: UpdateAction,
)
    requires
        event_due(update.stage, event),
        is_update_step(update, event, stage, action),
    ensures
        event matches UpdateEvent::Configured { ok } ==> ok ==> stage is FetchingRelease && action
            is FetchLatestRelease,
        event matches UpdateEvent::LatestRelease(Some(release)) ==> version_bump(
            update.current_version@,
            release.version@,
        ) == Some(true) && has_asset(release.assets@, update.target_bin@) && has_asset(
            release.assets@,
            update.target_bin@ + ".minisig"@,
        ) ==> stage is Updating && action is RunUpdater,
        event matches UpdateEvent::UpdateDone(UpdateStatus::Updated(release)) ==> stage
            is DownloadingBinary && stage->DownloadingBinary_0 == release && action
            is DownloadBinary && action->DownloadBinary_0@.map_values(|url: String| url@)
            == asset_urls(release.assets@, update.target_bin@),
        event is BinaryDownloaded && has_asset(
            (update.stage->DownloadingBinary_0).assets@,
            update.target_bin@ + ".minisig"@,
        ) ==> stage is DownloadingSignature && action is DownloadSignature && exists|i: int|
            #[trigger]
            is_first_asset(
                (update.stage->DownloadingBinary_0).assets@,
                update.target_bin@ + ".minisig"@,
                i,
            ) && action->DownloadSignature_0@ == (
            update.stage->DownloadingBinary_0).assets@[i].download_url@,
        event matches UpdateEvent::SignatureDownloaded(Some((signature, binary)))
            ==> minisign_rejection(update.release_public_key@, signature@, binary@, false) is None
            ==> stage is Installing && action is Install,
        event matches UpdateEvent::Renamed { ok } ==> ok && update.unix ==> stage
            is SettingPermissions && action is SetPermissions && action->mode == 0o755,
        event matches UpdateEvent::Renamed { ok } ==> ok && !update.unix ==> stage is Restarting
            && action is Restart,
        event matches UpdateEvent::PermissionsSet { ok } ==> ok ==> stage is Restarting && action
            is Restart,
{
}

/// What fails stops the update with its own reason, and a new program whose start
/// returned ends the process: as a failure on a Unix, where it should have taken the
/// process over, and as a success elsewhere.
pub proof fn every_failure_stops_with_its_reason(
    update: Update,
    event: UpdateEvent,
    stage: UpdateStage,
    action: UpdateAction,
)
    requires
        event_due(update.stage, event),
        is_update_step(update, event, stage, action),
    ensures
        event matches UpdateEvent::Configured { ok } ==> !ok ==> stage is Stopped && action
            == UpdateAction::Stop(StopReason::ConfigurationFailed),
        event matches UpdateEvent::LatestRelease(None) ==> stage is Stopped && action
            == UpdateAction::Stop(StopReason::ReleaseUnavailable),
        event matches UpdateEvent::LatestRelease(Some(release)) ==> version_bump(
            update.current_version@,
            release.version@,
        ) != Some(true) ==> stage is Stopped && action == UpdateAction::Stop(StopReason::UpToDate),
        event matches UpdateEvent::LatestRelease(Some(release)) ==> version_bump(
            update.current_version@,
            release.version@,
        ) == Some(true) && !(has_asset(release.assets@, update.target_bin@) && has_asset(
            release.assets@,
            update.target_bin@ + ".minisig"@,
        )) ==> stage is Stopped && action == UpdateAction::Stop(StopReason::NoSignedUpdate),
        event matches UpdateEvent::UpdateDone(UpdateStatus::Failed) ==> stage is Stopped && action
            == UpdateAction::Stop(StopReason::UpdateFailed),
        event matches UpdateEvent::UpdateDone(UpdateStatus::UpToDate) ==> stage is Stopped
            && action == UpdateAction::Stop(StopReason::UpToDate),
        event is BinaryDownloaded && !has_asset(
            (update.stage->DownloadingBinary_0).assets@,
            update.target_bin@ + ".minisig"@,
        ) ==> stage is Stopped && (action matches UpdateAction::Stop(
            StopReason::SignatureMissing(message),
        ) && message@ == "Release is missing "@ + (update.target_bin@ + ".minisig"@)),
        event matches UpdateEvent::SignatureDownloaded(None) ==> stage is Stopped && action
            == UpdateAction::Stop(StopReason::SignatureUnreadable),
        event matches UpdateEvent::SignatureDownloaded(Some((signature, binary)))
            ==> minisign_rejection(update.release_public_key@, signature@, binary@, false) is Some
            ==> stage is Stopped && (action matches UpdateAction::Stop(
            StopReason::SignatureRejected(message),
        ) && Some(message@) == minisign_rejection(
            update.release_public_key@,
            signature@,
            binary@,
            false,
        )),
        event matches UpdateEvent::Renamed { ok } ==> !ok ==> stage is Stopped && action
            == UpdateAction::Stop(StopReason::RenameFailed),
        event matches UpdateEvent::PermissionsSet { ok } ==> !ok ==> stage is Stopped && action
            == UpdateAction::Stop(StopReason::PermissionsFailed),
        event is RestartReturned && update.unix ==> stage is Stopped && action
            == UpdateAction::Exit(1),
        event is RestartReturned && !update.unix ==> stage is Stopped && action
            == UpdateAction::Exit(0),
{
}

} // verus!
