use dash3::pam::{ChannelConv, ErrorKind, PamError, PamRequest, ReturnCode, Style};

#[test]
fn auth_failures_are_auth_errors() {
    for rc in [
        ReturnCode::AuthErr,
        ReturnCode::Maxtries,
        ReturnCode::CredExpired,
        ReturnCode::AcctExpired,
        ReturnCode::CredInsufficient,
        ReturnCode::UserUnknown,
        ReturnCode::PermDenied,
        ReturnCode::ServiceErr,
    ] {
        let e = PamError::from_rc("authenticate", rc);
        assert_eq!(e.error_kind(), ErrorKind::Auth);
    }
    assert_eq!(
        PamError::from_rc("authenticate", ReturnCode::AuthErr),
        PamError::AuthError("authenticate: AUTH_ERR".to_string())
    );
}

#[test]
fn abort_is_an_abort_error() {
    let e = PamError::from_rc("pam_authenticate", ReturnCode::Abort);
    assert_eq!(e, PamError::AbortError("pam_authenticate: ABORT".to_string()));
    assert_eq!(e.message(), "abort error: pam_authenticate: ABORT");
}

#[test]
fn other_codes_are_plain_errors() {
    let e = PamError::from_rc("start", ReturnCode::SystemErr);
    assert_eq!(e, PamError::Error("start: SYSTEM_ERR".to_string()));
    assert_eq!(e.message(), "start: SYSTEM_ERR");
    assert_eq!(
        PamError::from_rc("", ReturnCode::Incomplete),
        PamError::Error(": INCOMPLETE".to_string())
    );
    assert_eq!(PamError::from_rc("x", ReturnCode::ConvErr).error_kind(), ErrorKind::Other);
}

#[test]
fn return_code_names() {
    assert_eq!(ReturnCode::Success.name(), "SUCCESS");
    assert_eq!(ReturnCode::NewAuthtokReqd.name(), "NEW_AUTHTOK_REQD");
    assert_eq!(ReturnCode::AuthtokDisableAging.name(), "AUTHTOK_DISABLE_AGING");
}

#[test]
fn request_text_and_answer_need() {
    assert!(PamRequest::Echo("login:".to_string()).expects_answer());
    assert!(PamRequest::Blind("Password: ".to_string()).expects_answer());
    assert!(!PamRequest::Info("i".to_string()).expects_answer());
    assert!(!PamRequest::Error("e".to_string()).expects_answer());
    assert_eq!(PamRequest::Error("bad".to_string()).text(), "bad");
}

#[test]
fn conversation_forwards_prompt_and_returns_answer() {
    let (pw_tx, pw_rx) = flume::unbounded::<String>();
    let (req_tx, req_rx) = flume::unbounded::<PamRequest>();
    let mut conv = ChannelConv::new(pw_rx, req_tx);
    pw_tx.send("hunter2".to_string()).unwrap();
    assert_eq!(conv.prompt_blind("Password: "), Ok("hunter2".to_string()));
    assert_eq!(req_rx.recv().unwrap(), PamRequest::Blind("Password: ".to_string()));
    pw_tx.send("me".to_string()).unwrap();
    assert_eq!(conv.prompt_echo("login:"), Ok("me".to_string()));
    assert_eq!(req_rx.recv().unwrap(), PamRequest::Echo("login:".to_string()));
}

#[test]
fn conversation_passes_messages_on() {
    let (_pw_tx, pw_rx) = flume::unbounded::<String>();
    let (req_tx, req_rx) = flume::unbounded::<PamRequest>();
    let mut conv = ChannelConv::new(pw_rx, req_tx);
    assert_eq!(conv.info("hello"), Ok(()));
    assert_eq!(conv.error("oops"), Ok(()));
    assert_eq!(req_rx.recv().unwrap(), PamRequest::Info("hello".to_string()));
    assert_eq!(req_rx.recv().unwrap(), PamRequest::Error("oops".to_string()));
}

#[test]
fn dropped_answer_channel_aborts_the_prompt() {
    let (pw_tx, pw_rx) = flume::unbounded::<String>();
    let (req_tx, req_rx) = flume::unbounded::<PamRequest>();
    let mut conv = ChannelConv::new(pw_rx, req_tx);
    drop(pw_tx);
    assert_eq!(conv.prompt_blind("Password: "), Err(()));
    assert_eq!(req_rx.recv().unwrap(), PamRequest::Blind("Password: ".to_string()));
}

#[test]
fn dropped_message_channel_fails_the_conversation() {
    let (pw_tx, pw_rx) = flume::unbounded::<String>();
    let (req_tx, req_rx) = flume::unbounded::<PamRequest>();
    let mut conv = ChannelConv::new(pw_rx, req_tx);
    drop(req_rx);
    pw_tx.send("unused".to_string()).unwrap();
    assert_eq!(conv.prompt_blind("Password: "), Err(()));
    assert_eq!(conv.info("x"), Err(()));
}

#[test]
fn requests_are_made_by_kind() {
    assert_eq!(PamRequest::make(Style::Echo, "login:"), PamRequest::Echo("login:".to_string()));
    assert_eq!(PamRequest::make(Style::Blind, "pw"), PamRequest::Blind("pw".to_string()));
    assert_eq!(PamRequest::make(Style::Info, "i"), PamRequest::Info("i".to_string()));
    assert_eq!(PamRequest::make(Style::Error, "e"), PamRequest::Error("e".to_string()));
}

#[test]
fn aborted_conversation_sends_no_further_prompt() {
    let (pw_tx, pw_rx) = flume::unbounded::<String>();
    let (req_tx, req_rx) = flume::unbounded::<PamRequest>();
    let mut conv = ChannelConv::new(pw_rx, req_tx);
    drop(pw_tx);
    assert_eq!(conv.prompt_blind("Password: "), Err(()));
    assert_eq!(req_rx.recv().unwrap(), PamRequest::Blind("Password: ".to_string()));
    assert_eq!(conv.prompt_echo("login:"), Err(()));
    assert_eq!(conv.info("hello"), Err(()));
    assert_eq!(conv.error("oops"), Err(()));
    assert!(req_rx.try_recv().is_err());
}
