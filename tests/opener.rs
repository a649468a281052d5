use roblox_studio_utils::{
    ResolvedPath, RobloxStudioError, RobloxStudioOpener, StagedPlace, DEFAULT_SERVER_PORT,
};

fn strs(v: &[String]) -> Vec<&str> {
    v.iter().map(|s| s.as_str()).collect()
}

const ZEROS: [&str; 8] = [
    "-creatorType", "0", "-creatorId", "0", "-universeId", "0", "-placeId", "0",
];

#[test]
fn new_opener_is_empty() {
    let o = RobloxStudioOpener::new();
    assert!(o.args().is_empty());
    assert_eq!(DEFAULT_SERVER_PORT, 50608);
    assert!(RobloxStudioOpener::default().args().is_empty());
}

#[test]
fn with_arg_appends_in_order() {
    let o = RobloxStudioOpener::new().with_arg("-a", "1").with_arg("-b", "2");
    assert_eq!(strs(o.args()), vec!["-a", "1", "-b", "2"]);
}

#[test]
fn open_place_args() {
    let o = RobloxStudioOpener::new().open_place(1234, 5678);
    assert_eq!(
        strs(o.args()),
        vec!["-task", "EditPlace", "-universeId", "1234", "-placeId", "5678"]
    );
}

#[test]
fn open_place_extreme_ids() {
    let o = RobloxStudioOpener::new().open_place(0, u64::MAX);
    assert_eq!(
        strs(o.args()),
        vec!["-task", "EditPlace", "-universeId", "0", "-placeId", "18446744073709551615"]
    );
}

#[test]
fn open_file_args() {
    let o = RobloxStudioOpener::new()
        .open_file(ResolvedPath::Text("/home/alice/place.rbxl".to_string()))
        .unwrap();
    assert_eq!(
        strs(o.args()),
        vec!["-task", "EditFile", "-localPlaceFile", "/home/alice/place.rbxl"]
    );
    assert_eq!(o.args().iter().filter(|a| a.as_str() == "-task").count(), 1);
}

#[test]
fn open_file_unresolved_fails() {
    let o = RobloxStudioOpener::new().with_arg("-x", "y");
    let before = o.clone();
    let r = o.open_file(ResolvedPath::Failed("No such file or directory".to_string()));
    match r {
        Err(RobloxStudioError::PathCanonicalize(d)) => assert_eq!(d, "No such file or directory"),
        other => panic!("unexpected: {:?}", other),
    }
    assert_eq!(strs(before.args()), vec!["-x", "y"]);
}

#[test]
fn open_file_not_text_fails() {
    let r = RobloxStudioOpener::new().open_file(ResolvedPath::NotText("/tmp/\u{fffd}".to_string()));
    match r {
        Err(RobloxStudioError::PathToString(p)) => assert_eq!(p, "/tmp/\u{fffd}"),
        other => panic!("unexpected: {:?}", other),
    }
}

#[test]
fn start_server_default_session() {
    let o = RobloxStudioOpener::new().start_server(StagedPlace::Copied).unwrap();
    let mut want = vec!["-task", "StartServer", "-server", "127.0.0.1", "-port", "50608"];
    want.extend(ZEROS);
    assert_eq!(strs(o.args()), want);
}

#[test]
fn start_server_custom_session() {
    let o = RobloxStudioOpener::new()
        .with_server_addr([192, 168, 0, 255])
        .with_server_port(8080)
        .start_server(StagedPlace::Copied)
        .unwrap();
    let mut want = vec!["-task", "StartServer", "-server", "192.168.0.255", "-port", "8080"];
    want.extend(ZEROS);
    assert_eq!(strs(o.args()), want);
}

#[test]
fn start_server_errors() {
    match RobloxStudioOpener::new().start_server(StagedPlace::SourceUnresolved("gone".to_string())) {
        Err(RobloxStudioError::PathCanonicalize(d)) => assert_eq!(d, "gone"),
        other => panic!("unexpected: {:?}", other),
    }
    match RobloxStudioOpener::new().start_server(StagedPlace::DataDirMissing) {
        Err(RobloxStudioError::LocalDataDirMissing) => {}
        other => panic!("unexpected: {:?}", other),
    }
    match RobloxStudioOpener::new().start_server(StagedPlace::CopyFailed("denied".to_string())) {
        Err(RobloxStudioError::LocalDataDirCopyPlace(d)) => assert_eq!(d, "denied"),
        other => panic!("unexpected: {:?}", other),
    }
}

#[test]
fn start_server_with_clients_appends_count() {
    let server = RobloxStudioOpener::new().start_server(StagedPlace::Copied).unwrap();
    let with = RobloxStudioOpener::new()
        .start_server_with_clients(StagedPlace::Copied, 4)
        .unwrap();
    let mut want: Vec<&str> = strs(server.args());
    want.extend(["-numtestserverplayersuponstartup", "4"]);
    assert_eq!(strs(with.args()), want);
    let most = RobloxStudioOpener::new()
        .start_server_with_clients(StagedPlace::Copied, 255)
        .unwrap();
    assert_eq!(most.args().last().unwrap(), "255");
}

#[test]
fn start_server_with_clients_propagates() {
    match RobloxStudioOpener::new().start_server_with_clients(StagedPlace::DataDirMissing, 2) {
        Err(RobloxStudioError::LocalDataDirMissing) => {}
        other => panic!("unexpected: {:?}", other),
    }
}

#[test]
fn start_client_session() {
    let o = RobloxStudioOpener::new().with_server_port(1).start_client();
    let mut want = vec!["-task", "StartClient", "-server", "127.0.0.1", "-port", "1"];
    want.extend(ZEROS);
    assert_eq!(strs(o.args()), want);
}

#[test]
fn server_place_file_under_local_data() {
    let f = RobloxStudioOpener::server_place_file_in(Some("/home/alice/.local/share".to_string()))
        .unwrap();
    assert_eq!(f, "/home/alice/.local/share/Roblox/server.rbxl");
    match RobloxStudioOpener::server_place_file_in(None) {
        Err(RobloxStudioError::LocalDataDirMissing) => {}
        other => panic!("unexpected: {:?}", other),
    }
}
