use jot_sync::bulk::modified_or_zero;
use jot_sync::bulk::BulkAction;
use jot_sync::bulk::BulkEvent;
use jot_sync::bulk::DownloadAll;
use jot_sync::bulk::UploadAll;
use jot_sync::bulk::UploadPhase;
use jot_sync::client::NextcloudClient;
use jot_sync::error::SyncError;
use jot_sync::http::Answer;
use jot_sync::http::HttpStatus;
use jot_sync::http::Method;
use jot_sync::http::Reply;
use jot_sync::reconcile::LocalStat;
use jot_sync::types::NextcloudConfig;
use jot_sync::types::SyncStatus;

fn bulk_client() -> NextcloudClient {
    let mut config = NextcloudConfig::default();
    config.server_url = "https://cloud.example.com".to_string();
    config.username = "alice".to_string();
    config.password = "secret".to_string();
    NextcloudClient::new(config).expect("complete settings")
}

fn bulk_reply(code: u16) -> Reply {
    Reply::Answered(Answer {
        status: HttpStatus::new(code).expect("a status"),
        last_modified: None,
        etag: None,
        body: Ok(String::new()),
    })
}

fn failure() -> SyncError {
    SyncError::Request("timed out".to_string())
}

fn upload_report(action: BulkAction) -> SyncStatus {
    match action {
        BulkAction::Finish(report) => report,
        other => panic!("expected the report, got {:?}", other),
    }
}

#[test]
fn one_way_time_is_zero_without_a_date() {
    assert_eq!(modified_or_zero(LocalStat::Modified(9)), 9);
    assert_eq!(modified_or_zero(LocalStat::Unavailable), 0);
    assert_eq!(modified_or_zero(LocalStat::Undated { now: 1234 }), 0);
}

#[test]
fn upload_all_files_only_what_was_uploaded() {
    let client = bulk_client();
    let (machine, action) = UploadAll::start();
    assert!(matches!(action, BulkAction::Backup));
    assert_eq!(machine.phase(), UploadPhase::AwaitBackup);
    let (machine, action) = machine.step(&client, BulkEvent::BackedUp(Err("no space".to_string())), 50);
    assert!(matches!(action, BulkAction::Send(ref request) if request.method == Method::Propfind));
    assert_eq!(machine.phase(), UploadPhase::AwaitProbe);
    let (mut machine, mut action) =
        machine.step(&client, BulkEvent::ContainerProbed(bulk_reply(207)), 50);

    // note 0: uploaded, remote time from the metadata probe
    assert!(matches!(action, BulkAction::CheckLocal(0)));
    (machine, action) = machine.step(&client, BulkEvent::LocalChecked(true), 50);
    assert!(matches!(action, BulkAction::ReadLocal(0)));
    (machine, action) = machine.step(&client, BulkEvent::LocalRead(Ok("zero".to_string())), 50);
    assert!(matches!(action, BulkAction::Upload(0, ref content) if content == "zero"));
    (machine, action) = machine.step(&client, BulkEvent::Uploaded(Ok(())), 50);
    assert!(matches!(action, BulkAction::ProbeMetadata(0)));
    (machine, action) = machine.step(&client, BulkEvent::Metadata(Ok(Some(1000))), 50);
    assert!(matches!(action, BulkAction::StatLocal(0)));
    (machine, action) = machine.step(&client, BulkEvent::Stat(LocalStat::Modified(999)), 50);

    // note 1: no local file
    assert!(matches!(action, BulkAction::CheckLocal(1)));
    (machine, action) = machine.step(&client, BulkEvent::LocalChecked(false), 50);

    // note 2: local file cannot be read
    assert!(matches!(action, BulkAction::CheckLocal(2)));
    (machine, action) = machine.step(&client, BulkEvent::LocalChecked(true), 50);
    (machine, action) = machine.step(&client, BulkEvent::LocalRead(Err("locked".to_string())), 50);

    // note 3: upload fails
    assert!(matches!(action, BulkAction::CheckLocal(3)));
    (machine, action) = machine.step(&client, BulkEvent::LocalChecked(true), 50);
    (machine, action) = machine.step(&client, BulkEvent::LocalRead(Ok("three".to_string())), 50);
    (machine, action) = machine.step(&client, BulkEvent::Uploaded(Err(failure())), 50);

    // note 4: uploaded, metadata probe fails, header probe answers
    assert!(matches!(action, BulkAction::CheckLocal(4)));
    (machine, action) = machine.step(&client, BulkEvent::LocalChecked(true), 50);
    (machine, action) = machine.step(&client, BulkEvent::LocalRead(Ok("four".to_string())), 50);
    (machine, action) = machine.step(&client, BulkEvent::Uploaded(Ok(())), 50);
    (machine, action) = machine.step(&client, BulkEvent::Metadata(Err(failure())), 50);
    assert!(matches!(action, BulkAction::ProbeHeader(4)));
    (machine, action) = machine.step(&client, BulkEvent::Header(Ok(Some(4000))), 50);
    assert!(matches!(action, BulkAction::StatLocal(4)));
    (machine, action) = machine.step(&client, BulkEvent::Stat(LocalStat::Unavailable), 50);

    // note 5: uploaded, both probes fail
    assert!(matches!(action, BulkAction::CheckLocal(5)));
    (machine, action) = machine.step(&client, BulkEvent::LocalChecked(true), 50);
    (machine, action) = machine.step(&client, BulkEvent::LocalRead(Ok("five".to_string())), 50);
    (machine, action) = machine.step(&client, BulkEvent::Uploaded(Ok(())), 50);
    (machine, action) = machine.step(&client, BulkEvent::Metadata(Err(failure())), 50);
    (machine, action) = machine.step(&client, BulkEvent::Header(Err(failure())), 50);
    (machine, action) = machine.step(&client, BulkEvent::Stat(LocalStat::Modified(5555)), 50);

    // note 6: no local file; the pass ends
    assert!(matches!(action, BulkAction::CheckLocal(6)));
    assert_eq!(machine.phase(), UploadPhase::AwaitExists(6));
    (machine, action) = machine.step(&client, BulkEvent::LocalChecked(false), 777);
    assert_eq!(machine.phase(), UploadPhase::Finished);

    let report = upload_report(action);
    assert_eq!(report.last_sync, Some(777));
    assert!(!report.syncing);
    assert!(report.error.is_none());
    assert_eq!(report.notes_status.len(), 3);
    let zero = report.notes_status.get(&0).expect("note 0");
    assert_eq!((zero.tab_index, zero.local_modified, zero.remote_modified), (0, 999, Some(1000)));
    assert!(zero.synced && !zero.conflict);
    let four = report.notes_status.get(&4).expect("note 4");
    assert_eq!((four.tab_index, four.local_modified, four.remote_modified), (4, 0, Some(4000)));
    let five = report.notes_status.get(&5).expect("note 5");
    assert_eq!((five.tab_index, five.local_modified, five.remote_modified), (5, 5555, None));
    assert!(five.synced);
}

#[test]
fn upload_all_creates_a_missing_container() {
    let client = bulk_client();
    let (machine, _) = UploadAll::start();
    let (machine, _) = machine.step(&client, BulkEvent::BackedUp(Ok("backup.zip".to_string())), 1);
    let (machine, action) = machine.step(&client, BulkEvent::ContainerProbed(bulk_reply(404)), 1);
    assert_eq!(machine.phase(), UploadPhase::AwaitCreate);
    assert!(matches!(action, BulkAction::Send(ref request) if request.method == Method::Mkcol));
    let (_, action) = machine.step(&client, BulkEvent::ContainerCreated(bulk_reply(201)), 1);
    assert!(matches!(action, BulkAction::CheckLocal(0)));
}

#[test]
fn upload_all_gives_up_without_a_container() {
    let client = bulk_client();
    let (machine, _) = UploadAll::start();
    let (machine, _) = machine.step(&client, BulkEvent::BackedUp(Ok("backup.zip".to_string())), 1);
    let (machine, action) = machine.step(&client, BulkEvent::ContainerProbed(bulk_reply(401)), 1);
    assert_eq!(machine.phase(), UploadPhase::Finished);
    match action {
        BulkAction::Abort(error) => assert_eq!(
            error.describe(),
            "WebDAV error: Failed to check directory, status: 401 Unauthorized"
        ),
        other => panic!("expected an abort, got {:?}", other),
    }
}

#[test]
fn upload_all_ignores_what_was_not_asked() {
    let client = bulk_client();
    let (machine, _) = UploadAll::start();
    let (machine, action) = machine.step(&client, BulkEvent::Announced, 1);
    assert!(matches!(action, BulkAction::Unexpected));
    assert_eq!(machine.phase(), UploadPhase::AwaitBackup);
}

#[test]
fn download_all_files_only_what_was_written() {
    let (machine, action) = DownloadAll::start();
    assert!(matches!(action, BulkAction::Backup));
    let (machine, action) = machine.step(BulkEvent::BackedUp(Ok("backup.zip".to_string())), 50);
    assert!(matches!(action, BulkAction::ProbeMetadata(0)));
    assert!(!machine.is_finished());

    // note 0: downloaded and written
    let (mut machine, mut action) = machine.step(BulkEvent::Metadata(Ok(Some(1000))), 50);
    assert!(matches!(action, BulkAction::Download(0)));
    (machine, action) = machine.step(BulkEvent::Downloaded(Ok("zero".to_string())), 50);
    assert!(matches!(action, BulkAction::WriteLocal(0, ref content) if content == "zero"));
    (machine, action) = machine.step(BulkEvent::LocalWritten(Ok(())), 50);
    assert!(matches!(action, BulkAction::StatLocal(0)));
    (machine, action) = machine.step(BulkEvent::Stat(LocalStat::Modified(1234)), 50);
    assert!(matches!(action, BulkAction::Announce(0, ref content) if content == "zero"));
    (machine, action) = machine.step(BulkEvent::Announced, 50);

    // note 1: absent on the server
    assert!(matches!(action, BulkAction::ProbeMetadata(1)));
    (machine, action) = machine.step(BulkEvent::Metadata(Ok(None)), 50);

    // note 2: metadata probe fails, header probe finds it; download fails
    assert!(matches!(action, BulkAction::ProbeMetadata(2)));
    (machine, action) = machine.step(BulkEvent::Metadata(Err(failure())), 50);
    assert!(matches!(action, BulkAction::ProbeHeader(2)));
    (machine, action) = machine.step(BulkEvent::Header(Ok(Some(2000))), 50);
    assert!(matches!(action, BulkAction::Download(2)));
    (machine, action) = machine.step(BulkEvent::Downloaded(Err(failure())), 50);

    // note 3: both probes fail
    assert!(matches!(action, BulkAction::ProbeMetadata(3)));
    (machine, action) = machine.step(BulkEvent::Metadata(Err(failure())), 50);
    (machine, action) = machine.step(BulkEvent::Header(Err(failure())), 50);

    // note 4: the local file cannot be written
    assert!(matches!(action, BulkAction::ProbeMetadata(4)));
    (machine, action) = machine.step(BulkEvent::Metadata(Ok(Some(4000))), 50);
    (machine, action) = machine.step(BulkEvent::Downloaded(Ok("four".to_string())), 50);
    (machine, action) = machine.step(BulkEvent::LocalWritten(Err("disk full".to_string())), 50);

    // note 5: header probe says absent
    assert!(matches!(action, BulkAction::ProbeMetadata(5)));
    (machine, action) = machine.step(BulkEvent::Metadata(Err(failure())), 50);
    (machine, action) = machine.step(BulkEvent::Header(Ok(None)), 50);

    // note 6: downloaded and written; the pass ends after the announcement
    assert!(matches!(action, BulkAction::ProbeMetadata(6)));
    (machine, action) = machine.step(BulkEvent::Metadata(Ok(Some(6000))), 50);
    (machine, action) = machine.step(BulkEvent::Downloaded(Ok("six".to_string())), 50);
    (machine, action) = machine.step(BulkEvent::LocalWritten(Ok(())), 50);
    (machine, action) = machine.step(BulkEvent::Stat(LocalStat::Undated { now: 50 }), 50);
    assert!(matches!(action, BulkAction::Announce(6, ref content) if content == "six"));
    assert!(!machine.is_finished());
    (machine, action) = machine.step(BulkEvent::Announced, 888);
    assert!(machine.is_finished());

    let report = upload_report(action);
    assert_eq!(report.last_sync, Some(888));
    assert!(!report.syncing);
    assert!(report.error.is_none());
    assert_eq!(report.notes_status.len(), 2);
    let zero = report.notes_status.get(&0).expect("note 0");
    assert_eq!((zero.tab_index, zero.local_modified, zero.remote_modified), (0, 1234, Some(1000)));
    assert!(zero.synced && !zero.conflict);
    let six = report.notes_status.get(&6).expect("note 6");
    assert_eq!((six.tab_index, six.local_modified, six.remote_modified), (6, 0, Some(6000)));
    assert!(six.synced);
}

#[test]
fn download_all_with_nothing_on_the_server_reports_nothing() {
    let (machine, _) = DownloadAll::start();
    let (mut machine, mut action) = machine.step(BulkEvent::BackedUp(Err("no space".to_string())), 1);
    for index in 0..7 {
        assert!(matches!(action, BulkAction::ProbeMetadata(asked) if asked == index));
        (machine, action) = machine.step(BulkEvent::Metadata(Ok(None)), 99);
    }
    assert!(machine.is_finished());
    let report = upload_report(action);
    assert_eq!(report.last_sync, Some(99));
    assert!(report.notes_status.is_empty());
    let (_, action) = machine.step(BulkEvent::Metadata(Ok(None)), 99);
    assert!(matches!(action, BulkAction::Unexpected));
}
