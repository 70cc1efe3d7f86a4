//! The session lifecycle as a host would drive it: connect, use the four
//! operations, disconnect.

use ftp_core::config::FtpConfig;
use ftp_core::connect::ConnectAction;
use ftp_core::errors::FtpError;
use ftp_core::manager::FtpConnection;
use ftp_core::outcomes::BytesOutcome;
use ftp_core::outcomes::ListOutcome;
use ftp_core::outcomes::StepOutcome;

fn test_config() -> FtpConfig {
    FtpConfig::new(
        "test.example.com".to_string(),
        21,
        "demo".to_string(),
        "password".to_string(),
        None,
    )
}

/// Drives a connect attempt to completion, feeding each network step the
/// next scripted outcome.
fn run_connect(manager: &mut FtpConnection, outcomes: Vec<StepOutcome>) -> Result<(), FtpError> {
    match manager.connect_begin() {
        None => Ok(()),
        Some(mut flow) => {
            let mut script = outcomes.into_iter();
            while !flow.is_done() {
                let _action = flow.action();
                flow.step(script.next().expect("the attempt asked for more steps than scripted"));
            }
            manager.connect_commit(flow)
        }
    }
}

fn connect_ok(manager: &mut FtpConnection) {
    let steps = vec![StepOutcome::Success, StepOutcome::Success, StepOutcome::Success];
    run_connect(manager, steps).expect("scripted connect should succeed");
}

#[test]
fn test_ftp_connection() {
    let mut connection = FtpConnection::new(test_config());
    connect_ok(&mut connection);

    let reply = ListOutcome::Entries(vec!["file1.txt".to_string(), "file2.txt".to_string()]);
    let files = connection.list_current_directory(reply).unwrap();
    println!("Files in directory: {:?}", files);
    assert_eq!(files.len(), 2, "Mock directory should have 2 files");

    let was_connected = connection.disconnect_begin();
    connection
        .disconnect_finish(was_connected, StepOutcome::Success)
        .unwrap();
}

#[test]
fn test_download_file() {
    let mut connection = FtpConnection::new(test_config());
    connect_ok(&mut connection);

    let remote_content = b"Mock file content".to_vec();
    connection.begin_operation().unwrap();
    // The host fetches "README.md" and reports its content.
    let fetched = connection
        .download_file(BytesOutcome::Content(remote_content.clone()))
        .unwrap();
    assert_eq!(fetched, remote_content);
    // The host writes the bytes to "downloaded_file" and reports success.
    let written = connection.download_finish(StepOutcome::Success);
    assert!(written.is_ok(), "Downloaded file should exist");

    let was_connected = connection.disconnect_begin();
    connection
        .disconnect_finish(was_connected, StepOutcome::Success)
        .unwrap();
}

#[test]
fn test_upload_file() {
    let mut connection = FtpConnection::new(test_config());
    connect_ok(&mut connection);

    let local_content = b"This is a test file for upload".to_vec();
    let remote_path = "test_upload_1.txt".to_string();

    connection.begin_operation().unwrap();
    // The host reads the local source and reports its content.
    let to_store = connection
        .upload_file(BytesOutcome::Content(local_content.clone()))
        .unwrap();
    assert_eq!(to_store, local_content);
    // The host stores the bytes under `remote_path` and reports success.
    connection.upload_finish(StepOutcome::Success).unwrap();

    // A listing afterwards shows the stored name.
    let reply = ListOutcome::Entries(vec!["other.txt".to_string(), remote_path.clone()]);
    let files = connection.list_current_directory(reply).unwrap();
    let uploaded = files.iter().any(|f| f == &remote_path);
    assert!(uploaded, "Uploaded file should be present in directory listing");

    // Cleanup: the server accepts the removal.
    connection.begin_operation().unwrap();
    connection.delete_file(StepOutcome::Success).unwrap();

    let was_connected = connection.disconnect_begin();
    connection
        .disconnect_finish(was_connected, StepOutcome::Success)
        .unwrap();
}

#[test]
fn scenario_anonymous_session() {
    let config = FtpConfig::new(
        "ftp.example.com".to_string(),
        21,
        "anonymous".to_string(),
        "anonymous@".to_string(),
        None,
    );
    let mut connection = FtpConnection::new(config);

    run_connect(
        &mut connection,
        vec![StepOutcome::Success, StepOutcome::Success],
    )
    .expect("connect should succeed");

    let root_entries = vec!["pub".to_string(), "welcome.msg".to_string()];
    let reply = ListOutcome::Entries(root_entries.clone());
    let files = connection.list_current_directory(reply).unwrap();
    assert_eq!(files, root_entries);

    let was_connected = connection.disconnect_begin();
    assert!(was_connected);
    connection
        .disconnect_finish(was_connected, StepOutcome::Success)
        .expect("disconnect should succeed");

    let guard = connection.begin_operation();
    assert!(matches!(guard, Err(FtpError::NotConnected)));
}

#[test]
fn connect_asks_for_the_configured_steps() {
    let config = FtpConfig::new(
        "test.example.com".to_string(),
        2121,
        "demo".to_string(),
        "password".to_string(),
        Some("/incoming".to_string()),
    );
    let manager = FtpConnection::new(config);
    let mut flow = manager.connect_begin().expect("a fresh manager starts an attempt");

    match flow.action() {
        ConnectAction::Dial { host, port } => {
            assert_eq!(host, "test.example.com");
            assert_eq!(port, 2121);
        }
        _ => panic!("the first step must be the dial"),
    }
    flow.step(StepOutcome::Success);

    match flow.action() {
        ConnectAction::Login { username, password } => {
            assert_eq!(username, "demo");
            assert_eq!(password, "password");
        }
        _ => panic!("the second step must be the login"),
    }
    flow.step(StepOutcome::Success);

    match flow.action() {
        ConnectAction::ChangeDirectory { path } => {
            assert_eq!(path, "/incoming");
        }
        _ => panic!("the third step must be the directory change"),
    }
    flow.step(StepOutcome::Success);

    assert!(flow.is_done());
}
