use dmnd_client::auto_update::{
    check_update_proxy, judge_release, restart_args, signature_url, target_bin, verify_signature,
    Release, ReleaseAsset, ReleaseVerdict, StopReason, Update, UpdateAction, UpdateEvent,
    UpdateStage, UpdateStatus,
};

const KEY: &str = "untrusted comment: minisign public key E7620F1842B4E81F
RWQf6LRCGA9i53mlYecO4IzT51TGPpvWucNSCh1CBM0QTaLn73Y7GFO3";

const SIGNATURE: &str = "untrusted comment: signature from minisign secret key
RUQf6LRCGA9i559r3g7V1qNyJDApGip8MfqcadIgT9CuhV3EMhHoN1mGTkUidF/z7SrlQgXdy8ofjb7bNJJylDOocrCo8KLzZwo=
trusted comment: timestamp:1556193335\tfile:test
y/rUw2y8/hOUYjZU71eHp/Wo1KZ40fGy2VJEDl34XMJM+TX48Ss/17u3IvIfbVR1FkZZSNCisQbuQY+bHwhEBg==";

const LEGACY_SIGNATURE: &str = "untrusted comment: signature from minisign secret key
RWQf6LRCGA9i59SLOFxz6NxvASXDJeRtuZykwQepbDEGt87ig1BNpWaVWuNrm73YiIiJbq71Wi+dP9eKL8OC351vwIasSSbXxwA=
trusted comment: timestamp:1555779966\tfile:test
QtKMXWyYcwdpZAlPF7tE2ENJkRd1ujvKjlj1m9RtHTBnZPa5WKU5uWRs5GoP5M/VqE81QFuMKI5k/SfNQUaOAA==";

fn asset(name: &str) -> ReleaseAsset {
    ReleaseAsset { name: name.to_string(), download_url: format!("https://x/{}", name) }
}

fn release(version: &str, names: &[&str]) -> Release {
    Release {
        version: version.to_string(),
        assets: names.iter().map(|name| asset(name)).collect(),
    }
}

fn signed(version: &str) -> Release {
    release(version, &["dmnd-client-macos", "dmnd-client-linux", "dmnd-client-linux.minisig"])
}

fn update() -> Update {
    Update::new("dmnd-client-linux".to_string(), "0.3.1".to_string(), KEY.to_string(), true)
}

fn at(stage: UpdateStage) -> Update {
    let mut update = update();
    update.stage = stage;
    update
}

fn stop_reason(update: &mut Update, event: UpdateEvent) -> StopReason {
    match check_update_proxy(update, event) {
        UpdateAction::Stop(reason) => {
            assert!(matches!(update.stage, UpdateStage::Stopped));
            reason
        }
        other => panic!("expected the update to stop, got {:?}", other),
    }
}

#[test]
fn every_system_has_its_file() {
    assert_eq!(target_bin("linux").as_deref(), Some("dmnd-client-linux"));
    assert_eq!(target_bin("macos").as_deref(), Some("dmnd-client-macos"));
    assert_eq!(target_bin("windows").as_deref(), Some("dmnd-client-windows.exe"));
    assert_eq!(target_bin("freebsd"), None);
}

#[test]
fn signatures_are_verified_under_the_key() {
    assert_eq!(verify_signature(KEY, SIGNATURE, &b"test".to_vec()), Ok(()));
    assert_eq!(
        verify_signature(KEY, SIGNATURE, &b"Test".to_vec()),
        Err("The signature verification failed".to_string())
    );
    assert_eq!(
        verify_signature(KEY, LEGACY_SIGNATURE, &b"test".to_vec()),
        Err("Unexpected signature algorithm".to_string())
    );
    assert_eq!(
        verify_signature("no key", SIGNATURE, &b"test".to_vec()),
        Err("Invalid encoding in minisign data".to_string())
    );
    assert_eq!(
        verify_signature(KEY, "no signature", &b"test".to_vec()),
        Err("Invalid encoding in minisign data".to_string())
    );
}

#[test]
fn releases_are_judged_by_version_and_files() {
    let assets = signed("1.0.0").assets;
    let judge = |newer| judge_release(newer, &assets, "dmnd-client-linux");
    assert_eq!(judge(Some(true)), ReleaseVerdict::Install);
    assert_eq!(judge(Some(false)), ReleaseVerdict::UpToDate);
    assert_eq!(judge(None), ReleaseVerdict::UpToDate);
    assert_eq!(
        judge_release(Some(true), &assets, "dmnd-client-macos"),
        ReleaseVerdict::NoSignedUpdate
    );
    assert_eq!(
        judge_release(Some(true), &vec![asset("a.minisig")], "a"),
        ReleaseVerdict::NoSignedUpdate
    );
}

#[test]
fn the_first_signature_of_a_file_is_taken() {
    let mut assets = signed("1.0.0").assets;
    let mut second = asset("dmnd-client-linux.minisig");
    second.download_url = "https://x/second".to_string();
    assets.push(second);
    assert_eq!(
        signature_url(&assets, "dmnd-client-linux"),
        Ok("https://x/dmnd-client-linux.minisig".to_string())
    );
    assert_eq!(
        signature_url(&assets, "dmnd-client-macos"),
        Err("Release is missing dmnd-client-macos.minisig".to_string())
    );
}

#[test]
fn a_signed_newer_release_is_installed() {
    let mut update = update();
    assert!(matches!(
        check_update_proxy(&mut update, UpdateEvent::Configured { ok: true }),
        UpdateAction::FetchLatestRelease
    ));
    assert!(matches!(
        check_update_proxy(&mut update, UpdateEvent::LatestRelease(Some(signed("0.10.0")))),
        UpdateAction::RunUpdater
    ));
    let done = UpdateEvent::UpdateDone(UpdateStatus::Updated(signed("0.10.0")));
    match check_update_proxy(&mut update, done) {
        UpdateAction::DownloadBinary(urls) => {
            assert_eq!(urls, vec!["https://x/dmnd-client-linux".to_string()])
        }
        other => panic!("expected a download, got {:?}", other),
    }
    match check_update_proxy(&mut update, UpdateEvent::BinaryDownloaded) {
        UpdateAction::DownloadSignature(url) => {
            assert_eq!(url, "https://x/dmnd-client-linux.minisig")
        }
        other => panic!("expected a download, got {:?}", other),
    }
    let files = Some((SIGNATURE.to_string(), b"test".to_vec()));
    assert!(matches!(
        check_update_proxy(&mut update, UpdateEvent::SignatureDownloaded(files)),
        UpdateAction::Install
    ));
    assert!(matches!(
        check_update_proxy(&mut update, UpdateEvent::Renamed { ok: true }),
        UpdateAction::SetPermissions { mode: 0o755 }
    ));
    assert!(matches!(
        check_update_proxy(&mut update, UpdateEvent::PermissionsSet { ok: true }),
        UpdateAction::Restart
    ));
    assert!(matches!(
        check_update_proxy(&mut update, UpdateEvent::RestartReturned),
        UpdateAction::Exit(1)
    ));
}

#[test]
fn a_tampered_file_is_not_installed() {
    let files = Some((SIGNATURE.to_string(), b"tampered".to_vec()));
    match stop_reason(
        &mut at(UpdateStage::DownloadingSignature),
        UpdateEvent::SignatureDownloaded(files),
    ) {
        StopReason::SignatureRejected(message) => {
            assert_eq!(message, "The signature verification failed")
        }
        other => panic!("expected a rejected signature, got {:?}", other),
    }
}

#[test]
fn only_newer_versions_are_updated_to() {
    for version in ["0.3.1", "0.3.0", "0.2.9", "not a version"] {
        let event = UpdateEvent::LatestRelease(Some(signed(version)));
        assert!(matches!(
            stop_reason(&mut at(UpdateStage::FetchingRelease), event),
            StopReason::UpToDate
        ));
    }
    let unsigned = release("9.0.0", &["dmnd-client-linux"]);
    assert!(matches!(
        stop_reason(
            &mut at(UpdateStage::FetchingRelease),
            UpdateEvent::LatestRelease(Some(unsigned))
        ),
        StopReason::NoSignedUpdate
    ));
}

#[test]
fn every_failure_stops_the_update() {
    assert!(matches!(
        stop_reason(&mut update(), UpdateEvent::Configured { ok: false }),
        StopReason::ConfigurationFailed
    ));
    assert!(matches!(
        stop_reason(&mut at(UpdateStage::FetchingRelease), UpdateEvent::LatestRelease(None)),
        StopReason::ReleaseUnavailable
    ));
    assert!(matches!(
        stop_reason(
            &mut at(UpdateStage::Updating),
            UpdateEvent::UpdateDone(UpdateStatus::Failed)
        ),
        StopReason::UpdateFailed
    ));
    assert!(matches!(
        stop_reason(
            &mut at(UpdateStage::Updating),
            UpdateEvent::UpdateDone(UpdateStatus::UpToDate)
        ),
        StopReason::UpToDate
    ));
    let unsigned = release("9.0.0", &["dmnd-client-linux"]);
    match stop_reason(
        &mut at(UpdateStage::DownloadingBinary(unsigned)),
        UpdateEvent::BinaryDownloaded,
    ) {
        StopReason::SignatureMissing(message) => {
            assert_eq!(message, "Release is missing dmnd-client-linux.minisig")
        }
        other => panic!("expected a missing signature, got {:?}", other),
    }
    assert!(matches!(
        stop_reason(
            &mut at(UpdateStage::DownloadingSignature),
            UpdateEvent::SignatureDownloaded(None)
        ),
        StopReason::SignatureUnreadable
    ));
    assert!(matches!(
        stop_reason(&mut at(UpdateStage::Installing), UpdateEvent::Renamed { ok: false }),
        StopReason::RenameFailed
    ));
    assert!(matches!(
        stop_reason(
            &mut at(UpdateStage::SettingPermissions),
            UpdateEvent::PermissionsSet { ok: false }
        ),
        StopReason::PermissionsFailed
    ));
}

#[test]
fn other_systems_start_the_new_program_and_leave() {
    let mut update = at(UpdateStage::Installing);
    update.unix = false;
    assert!(matches!(
        check_update_proxy(&mut update, UpdateEvent::Renamed { ok: true }),
        UpdateAction::Restart
    ));
    assert!(matches!(
        check_update_proxy(&mut update, UpdateEvent::RestartReturned),
        UpdateAction::Exit(0)
    ));
}

#[test]
fn the_new_program_gets_the_arguments() {
    let args = |list: &[&str]| list.iter().map(|a| a.to_string()).collect::<Vec<String>>();
    assert_eq!(restart_args(args(&["prog", "-a", "b"])), args(&["-a", "b"]));
    assert_eq!(restart_args(args(&["prog"])), args(&[]));
    assert_eq!(restart_args(vec![]), args(&[]));
}

#[test]
fn results_of_outside_work_decide_the_step() {
    let mut update = update();
    assert!(matches!(
        update.on_latest_release(Some(true), &signed("0.0.1")),
        UpdateAction::RunUpdater
    ));
    assert!(matches!(update.stage, UpdateStage::Updating));
    assert!(matches!(
        update.on_latest_release(None, &signed("9.9.9")),
        UpdateAction::Stop(StopReason::UpToDate)
    ));
    assert!(matches!(update.on_signature_checked(Ok(())), UpdateAction::Install));
    assert!(matches!(update.stage, UpdateStage::Installing));
    match update.on_signature_checked(Err("bad".to_string())) {
        UpdateAction::Stop(StopReason::SignatureRejected(message)) => assert_eq!(message, "bad"),
        other => panic!("expected a rejected signature, got {:?}", other),
    }
    assert!(matches!(update.stage, UpdateStage::Stopped));
}
