use roblox_studio_utils::RobloxStudioTask;

#[test]
fn parse_compact_names() {
    assert_eq!(RobloxStudioTask::parse("editplace"), Some(RobloxStudioTask::EditPlace));
    assert_eq!(RobloxStudioTask::parse("editfile"), Some(RobloxStudioTask::EditFile));
    assert_eq!(RobloxStudioTask::parse("startserver"), Some(RobloxStudioTask::StartServer));
    assert_eq!(RobloxStudioTask::parse("startclient"), Some(RobloxStudioTask::StartClient));
}

#[test]
fn parse_separated_names() {
    assert_eq!(RobloxStudioTask::parse("edit-place"), Some(RobloxStudioTask::EditPlace));
    assert_eq!(RobloxStudioTask::parse("edit_place"), Some(RobloxStudioTask::EditPlace));
    assert_eq!(RobloxStudioTask::parse("edit-file"), Some(RobloxStudioTask::EditFile));
    assert_eq!(RobloxStudioTask::parse("start_server"), Some(RobloxStudioTask::StartServer));
    assert_eq!(RobloxStudioTask::parse("start-client"), Some(RobloxStudioTask::StartClient));
}

#[test]
fn parse_ignores_case() {
    assert_eq!(RobloxStudioTask::parse("EditPlace"), Some(RobloxStudioTask::EditPlace));
    assert_eq!(RobloxStudioTask::parse("EDIT_FILE"), Some(RobloxStudioTask::EditFile));
    assert_eq!(RobloxStudioTask::parse("Start-Server"), Some(RobloxStudioTask::StartServer));
    assert_eq!(RobloxStudioTask::parse("sTaRtClIeNt"), Some(RobloxStudioTask::StartClient));
}

#[test]
fn parse_trims_whitespace() {
    assert_eq!(RobloxStudioTask::parse("  editplace  "), Some(RobloxStudioTask::EditPlace));
    assert_eq!(RobloxStudioTask::parse("\tstart_client\n"), Some(RobloxStudioTask::StartClient));
    assert_eq!(RobloxStudioTask::parse("\u{3000}EditFile\u{a0}"), Some(RobloxStudioTask::EditFile));
}

#[test]
fn parse_rejects_other_text() {
    assert_eq!(RobloxStudioTask::parse(""), None);
    assert_eq!(RobloxStudioTask::parse("   "), None);
    assert_eq!(RobloxStudioTask::parse("edit place"), None);
    assert_eq!(RobloxStudioTask::parse("edit--place"), None);
    assert_eq!(RobloxStudioTask::parse("edit.place"), None);
    assert_eq!(RobloxStudioTask::parse("editplaces"), None);
    assert_eq!(RobloxStudioTask::parse("placeedit"), None);
    assert_eq!(RobloxStudioTask::parse("server"), None);
    assert_eq!(RobloxStudioTask::parse("-editplace"), None);
}

#[test]
fn name_is_pascal_case() {
    assert_eq!(RobloxStudioTask::EditPlace.name(), "EditPlace");
    assert_eq!(RobloxStudioTask::EditFile.name(), "EditFile");
    assert_eq!(RobloxStudioTask::StartServer.name(), "StartServer");
    assert_eq!(RobloxStudioTask::StartClient.name(), "StartClient");
}

#[test]
fn name_parses_back() {
    for t in [
        RobloxStudioTask::EditPlace,
        RobloxStudioTask::EditFile,
        RobloxStudioTask::StartServer,
        RobloxStudioTask::StartClient,
    ] {
        assert_eq!(RobloxStudioTask::parse(t.name()), Some(t));
    }
}

#[test]
fn from_str_reports_unknown_task() {
    let t: RobloxStudioTask = "start-server".parse().unwrap();
    assert_eq!(t, RobloxStudioTask::StartServer);
    match "launch".parse::<RobloxStudioTask>() {
        Err(roblox_studio_utils::RobloxStudioError::UnknownTask(s)) => assert_eq!(s, "launch"),
        other => panic!("unexpected: {:?}", other),
    }
}

#[test]
fn parse_same_under_ascii_case() {
    for s in ["editplace", " Start_Client ", "edit-FILE", "nope", "", "StartServer\t"] {
        assert_eq!(RobloxStudioTask::parse(s), RobloxStudioTask::parse(&s.to_ascii_uppercase()));
        assert_eq!(RobloxStudioTask::parse(s), RobloxStudioTask::parse(&s.to_ascii_lowercase()));
    }
}
