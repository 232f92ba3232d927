use all_in_poster::{Action, Report, Session, WindowCommand, WindowError};

fn open(url: &str) -> WindowCommand {
    WindowCommand::OpenExternal {
        label: "docs".to_string(),
        url: url.to_string(),
        title: "Docs".to_string(),
    }
}

fn reply(action: Action) -> Result<(), WindowError> {
    match action {
        Action::Reply(r) => r,
        _ => panic!("the command is not over"),
    }
}

#[test]
fn open_starts_with_main_window_lookup() {
    let (session, action) = Session::start(open("https://example.com"));
    assert!(matches!(action, Action::FindMainWindow));
    assert!(session.accepts(&Report::MainWindow(true)));
    assert!(!session.accepts(&Report::Found(true)));
    assert!(!session.accepts(&Report::Outcome(Ok(()))));
    assert!(!session.is_done());
}

#[test]
fn open_without_main_window_fails() {
    let (session, _) = Session::start(open("https://example.com"));
    let (session, action) = session.step(Report::MainWindow(false));
    assert!(session.is_done());
    let err = reply(action).unwrap_err();
    assert_eq!(err, WindowError::MainWindowMissing);
    assert_eq!(err.message(), "Main window not found");
}

#[test]
fn open_without_main_window_fails_before_parsing() {
    let (session, _) = Session::start(open("not a url"));
    let (_, action) = session.step(Report::MainWindow(false));
    assert_eq!(reply(action), Err(WindowError::MainWindowMissing));
}

#[test]
fn open_malformed_url_fails() {
    let (session, _) = Session::start(open("not a url"));
    let (session, action) = session.step(Report::MainWindow(true));
    assert!(session.is_done());
    assert!(!session.accepts(&Report::Outcome(Ok(()))));
    let err = reply(action).unwrap_err();
    assert_eq!(
        err,
        WindowError::InvalidUrl("relative URL without a base".to_string())
    );
    assert_eq!(err.message(), "Invalid URL: relative URL without a base");
}

#[test]
fn open_malformed_url_with_scheme_fails() {
    let (session, _) = Session::start(open("http://[::1"));
    let (_, action) = session.step(Report::MainWindow(true));
    assert_eq!(
        reply(action),
        Err(WindowError::InvalidUrl("invalid IPv6 address".to_string()))
    );
}

#[test]
fn open_empty_url_fails() {
    let (session, _) = Session::start(open(""));
    let (_, action) = session.step(Report::MainWindow(true));
    assert!(matches!(reply(action), Err(WindowError::InvalidUrl(_))));
}

#[test]
fn open_well_formed_url_succeeds() {
    let (session, _) = Session::start(open("https://example.com"));
    let (session, action) = session.step(Report::MainWindow(true));
    match action {
        Action::MakeBuilder { label, url } => {
            assert_eq!(label, "docs");
            assert_eq!(url.as_str(), "https://example.com/");
        }
        _ => panic!("expected a builder to be asked for"),
    }
    assert!(session.accepts(&Report::Outcome(Ok(()))));
    let (session, action) = session.step(Report::Outcome(Ok(())));
    match action {
        Action::Build { title } => assert_eq!(title, "Docs"),
        _ => panic!("expected the window to be built"),
    }
    let (session, action) = session.step(Report::Outcome(Ok(())));
    assert!(session.is_done());
    assert_eq!(reply(action), Ok(()));
}

#[test]
fn open_builder_failure_is_reported() {
    let (session, _) = Session::start(open("https://example.com"));
    let (session, _) = session.step(Report::MainWindow(true));
    let (session, action) = session.step(Report::Outcome(Err("label taken".to_string())));
    assert!(session.is_done());
    let err = reply(action).unwrap_err();
    assert_eq!(err, WindowError::BuilderFailed("label taken".to_string()));
    assert_eq!(err.message(), "Failed to create window builder: label taken");
}

#[test]
fn open_build_failure_is_reported() {
    let (session, _) = Session::start(open("https://example.com"));
    let (session, _) = session.step(Report::MainWindow(true));
    let (session, _) = session.step(Report::Outcome(Ok(())));
    let (session, action) = session.step(Report::Outcome(Err("no display".to_string())));
    assert!(session.is_done());
    let err = reply(action).unwrap_err();
    assert_eq!(err, WindowError::BuildFailed("no display".to_string()));
    assert_eq!(err.message(), "Failed to create window: no display");
}

#[test]
fn parsed_address_is_taken_as_given() {
    let (session, action) = Session::opened(
        "docs".to_string(),
        "Docs".to_string(),
        Err("bad port".to_string()),
    );
    assert!(session.is_done());
    assert_eq!(
        reply(action),
        Err(WindowError::InvalidUrl("bad port".to_string()))
    );
}

#[test]
fn close_absent_window_succeeds() {
    let (session, action) = Session::start(WindowCommand::Close {
        label: "nonexistent-label".to_string(),
    });
    match action {
        Action::FindWindow { label } => assert_eq!(label, "nonexistent-label"),
        _ => panic!("expected a lookup"),
    }
    let (session, action) = session.step(Report::Found(false));
    assert!(session.is_done());
    assert_eq!(reply(action), Ok(()));
}

#[test]
fn close_open_window_then_close_again() {
    let close = || WindowCommand::Close {
        label: "docs".to_string(),
    };
    let (session, _) = Session::start(close());
    let (session, action) = session.step(Report::Found(true));
    assert!(matches!(action, Action::CloseWindow));
    let (_, action) = session.step(Report::Outcome(Ok(())));
    assert_eq!(reply(action), Ok(()));
    let (session, _) = Session::start(close());
    let (_, action) = session.step(Report::Found(false));
    assert_eq!(reply(action), Ok(()));
}

#[test]
fn close_failure_is_reported() {
    let (session, _) = Session::start(WindowCommand::Close {
        label: "docs".to_string(),
    });
    let (session, _) = session.step(Report::Found(true));
    let (_, action) = session.step(Report::Outcome(Err("busy".to_string())));
    let err = reply(action).unwrap_err();
    assert_eq!(err, WindowError::CloseFailed("busy".to_string()));
    assert_eq!(err.message(), "Failed to close window: busy");
}

#[test]
fn focus_absent_window_succeeds() {
    let (session, _) = Session::start(WindowCommand::Focus {
        label: "nonexistent-label".to_string(),
    });
    assert!(session.accepts(&Report::Found(false)));
    let (session, action) = session.step(Report::Found(false));
    assert!(session.is_done());
    assert_eq!(reply(action), Ok(()));
}

#[test]
fn focus_open_window_succeeds() {
    let (session, _) = Session::start(WindowCommand::Focus {
        label: "docs".to_string(),
    });
    let (session, action) = session.step(Report::Found(true));
    assert!(matches!(action, Action::FocusWindow));
    let (_, action) = session.step(Report::Outcome(Ok(())));
    assert_eq!(reply(action), Ok(()));
}

#[test]
fn focus_failure_is_reported() {
    let (session, _) = Session::start(WindowCommand::Focus {
        label: "docs".to_string(),
    });
    let (session, _) = session.step(Report::Found(true));
    let (_, action) = session.step(Report::Outcome(Err("minimised".to_string())));
    let err = reply(action).unwrap_err();
    assert_eq!(err, WindowError::FocusFailed("minimised".to_string()));
    assert_eq!(err.message(), "Failed to focus window: minimised");
}

#[test]
fn finished_session_accepts_nothing() {
    let (session, _) = Session::start(WindowCommand::Focus {
        label: "docs".to_string(),
    });
    let (session, _) = session.step(Report::Found(false));
    assert!(!session.accepts(&Report::Found(true)));
    assert!(!session.accepts(&Report::MainWindow(true)));
    assert!(!session.accepts(&Report::Outcome(Ok(()))));
}
