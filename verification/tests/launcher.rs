use d2r_multiplay::os::{
    create_process_with_logon, logon_arguments, to_pcwstr, LaunchFailure, LogonAction, LogonEvent,
    LogonStage, ProcessLaunchResult, CREATE_NEW_CONSOLE, CREATE_UNICODE_ENVIRONMENT,
    LAUNCH_CREATION_FLAGS, LOGON_WITH_PROFILE,
};

fn started(process_id: u32) -> ProcessLaunchResult {
    ProcessLaunchResult { process_id, thread_id: process_id + 1 }
}

#[test]
fn wide_text_is_terminated_utf16() {
    assert_eq!(to_pcwstr(""), vec![0]);
    assert_eq!(to_pcwstr("A"), vec![0x41, 0]);
    assert_eq!(to_pcwstr("é战"), vec![0x00E9, 0x6218, 0]);
    // A character beyond the basic plane is a surrogate pair.
    assert_eq!(to_pcwstr("\u{1F600}"), vec![0xD83D, 0xDE00, 0]);
    assert_eq!(to_pcwstr("\u{10000}\u{10FFFF}"), vec![0xD800, 0xDC00, 0xDBFF, 0xDFFF, 0]);
    assert_eq!(to_pcwstr("\u{FFFF}"), vec![0xFFFF, 0]);
    let sample = "C:\\Program Files (x86)\\Battle.net\\Battle.net.exe";
    let mut expected: Vec<u16> = sample.encode_utf16().collect();
    expected.push(0);
    assert_eq!(to_pcwstr(sample), expected);
}

#[test]
fn logon_arguments_are_marshalled_once() {
    let a = logon_arguments("bob", Some("PC"), "pw", "C:\\x.exe", None, Some("C:\\"));
    assert_eq!(a.username, to_pcwstr("bob"));
    assert_eq!(a.domain, Some(to_pcwstr("PC")));
    assert_eq!(a.password, to_pcwstr("pw"));
    assert_eq!(a.application_path, to_pcwstr("C:\\x.exe"));
    assert_eq!(a.command_line, Vec::<u16>::new());
    assert_eq!(a.current_directory, Some(to_pcwstr("C:\\")));
    assert_eq!(a.logon_flags, LOGON_WITH_PROFILE);
    assert_eq!(a.creation_flags, CREATE_NEW_CONSOLE | CREATE_UNICODE_ENVIRONMENT);
    assert_eq!(LAUNCH_CREATION_FLAGS, 0x410);
    let b = logon_arguments("bob", None, "", "x", Some("x -launch"), None);
    assert_eq!(b.domain, None);
    assert_eq!(b.password, vec![0]);
    assert_eq!(b.command_line, to_pcwstr("x -launch"));
    assert_eq!(b.current_directory, None);
}

#[test]
fn first_way_succeeds() {
    let (arguments, stage) = create_process_with_logon("bob", None, "pw", "x.exe", None, None);
    assert_eq!(arguments.creation_flags & CREATE_NEW_CONSOLE, CREATE_NEW_CONSOLE);
    assert_eq!(stage.action(), LogonAction::CreateWithLogon);
    let stage = stage.step(LogonEvent::Created(Ok(started(100))));
    assert_eq!(stage.action(), LogonAction::Finished);
    assert_eq!(stage.outcome(), Some(Ok(started(100))));
}

#[test]
fn fallback_acquires_and_releases_the_token() {
    let (_, stage) = create_process_with_logon("bob", None, "pw", "x.exe", None, None);
    let stage = stage.step(LogonEvent::Created(Err("privilege not held".to_string())));
    assert_eq!(stage.action(), LogonAction::AcquireToken);
    let stage = stage.step(LogonEvent::TokenAcquired(Ok(())));
    assert_eq!(stage.action(), LogonAction::CreateWithToken);
    let stage = stage.step(LogonEvent::Created(Ok(started(200))));
    assert_eq!(stage.action(), LogonAction::ReleaseToken);
    let stage = stage.step(LogonEvent::TokenReleased);
    assert_eq!(stage.action(), LogonAction::Finished);
    assert_eq!(stage.outcome(), Some(Ok(started(200))));
}

#[test]
fn refused_logon_ends_the_launch() {
    let (_, stage) = create_process_with_logon("bob", None, "bad", "x.exe", None, None);
    let stage = stage.step(LogonEvent::Created(Err("no".to_string())));
    let stage = stage.step(LogonEvent::TokenAcquired(Err("wrong password".to_string())));
    assert_eq!(stage.action(), LogonAction::Finished);
    assert_eq!(stage.outcome(), Some(Err(LaunchFailure::Logon("wrong password".to_string()))));
}

#[test]
fn failed_creation_still_releases_the_token() {
    let (_, stage) = create_process_with_logon("bob", None, "pw", "x.exe", None, None);
    let stage = stage.step(LogonEvent::Created(Err("no".to_string())));
    let stage = stage.step(LogonEvent::TokenAcquired(Ok(())));
    let stage = stage.step(LogonEvent::Created(Err("file not found".to_string())));
    assert_eq!(stage.action(), LogonAction::ReleaseToken);
    assert!(!matches!(stage, LogonStage::Done(_)));
    let stage = stage.step(LogonEvent::TokenReleased);
    assert_eq!(
        stage.outcome(),
        Some(Err(LaunchFailure::ProcessCreation("file not found".to_string())))
    );
}

#[test]
fn unexpected_answers_change_nothing() {
    let stage: LogonStage<String> = LogonStage::WithLogon;
    let stage = stage.step(LogonEvent::TokenReleased);
    assert_eq!(stage, LogonStage::WithLogon);
    let stage = stage.step(LogonEvent::TokenAcquired(Ok(())));
    assert_eq!(stage, LogonStage::WithLogon);
    let done: LogonStage<String> = LogonStage::Done(Ok(started(1)));
    let done = done.step(LogonEvent::Created(Ok(started(2))));
    assert_eq!(done, LogonStage::Done(Ok(started(1))));
}

#[test]
fn launch_failures_have_their_texts() {
    assert_eq!(
        LaunchFailure::Spawn("denied".to_string()).message(),
        "Failed to spawn process: denied"
    );
    assert_eq!(LaunchFailure::Logon("bad".to_string()).message(), "LogonUserW failed: bad");
    assert_eq!(
        LaunchFailure::ProcessCreation("gone".to_string()).message(),
        "CreateProcessAsUserW failed: gone"
    );
}

#[test]
fn wide_text_agrees_with_the_standard_library() {
    let mut code: u32 = 0;
    while code <= 0x10_FFFF {
        if let Some(c) = char::from_u32(code) {
            let text = format!("a{}", c);
            let mut expected: Vec<u16> = text.encode_utf16().collect();
            expected.push(0);
            assert_eq!(to_pcwstr(&text), expected);
        }
        code += 257;
    }
}
