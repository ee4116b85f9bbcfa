use linker::HostEvent;
use linker::Linker;
use linker::RunError;
use linker::RunState;
use linker::SystemConfig;

fn waiting_for_canonical(cfg: &SystemConfig, home: &str, base: &str, requested: &str) -> RunState {
    RunState::Canonicalizing {
        candidate: cfg.candidate_path(home, requested),
        base: base.to_string(),
    }
}

#[test]
fn existing_file_resolves_to_canonical_path_under_base() {
    let cfg = SystemConfig::new("h".to_string(), "/home/u/docs".to_string());
    let state = waiting_for_canonical(&cfg, "/home/u", "/home/u/docs", "/a/b.pdf");
    let next = state.advance(HostEvent::Canonicalized(Some("/home/u/docs/a/b.pdf".to_string())));
    match next {
        RunState::Opening { path } => {
            assert!(path.ends_with("a/b.pdf"));
            assert_eq!(path, "/home/u/docs/a/b.pdf");
        },
        other => panic!("expected the open step, got {:?}", other),
    }
}

#[test]
fn missing_file_fails_with_not_found() {
    let cfg = SystemConfig::new("h".to_string(), "/home/u/docs".to_string());
    let state = waiting_for_canonical(&cfg, "/home/u", "/home/u/docs", "/missing.pdf");
    let next = state.advance(HostEvent::Canonicalized(None));
    assert_eq!(next, RunState::Failed { error: RunError::NotFound });
}

#[test]
fn canonical_path_escaping_the_base_is_rejected() {
    let cfg = SystemConfig::new("h".to_string(), "/home/u/docs".to_string());
    let state = waiting_for_canonical(&cfg, "/home/u", "/home/u/docs", "/../../etc/passwd");
    let next = state.advance(HostEvent::Canonicalized(Some("/etc/passwd".to_string())));
    assert_eq!(next, RunState::Failed { error: RunError::OutsideBase });
}

#[test]
fn verbose_canonical_answer_is_stripped_before_the_open_step() {
    let cfg = SystemConfig::new("h".to_string(), "C:\\Users\\tim".to_string());
    let state = waiting_for_canonical(&cfg, "C:\\Users\\tim", "C:\\Users\\tim", "/x.pdf");
    let next = state.advance(HostEvent::Canonicalized(Some(
        "\\\\?\\C:\\Users\\tim\\x.pdf".to_string(),
    )));
    match next {
        RunState::Opening { path } => assert_eq!(path, "C:\\Users\\tim\\x.pdf"),
        other => panic!("expected the open step, got {:?}", other),
    }
}

#[test]
fn open_answer_decides_between_success_and_failure() {
    let opened = RunState::Opening { path: "/home/u/docs/a.pdf".to_string() };
    assert_eq!(opened.advance(HostEvent::Opened(true)), RunState::Succeeded);
    let failed = RunState::Opening { path: "/home/u/docs/a.pdf".to_string() };
    assert_eq!(
        failed.advance(HostEvent::Opened(false)),
        RunState::Failed { error: RunError::OpenFailed }
    );
}

#[test]
fn resolving_twice_yields_the_same_string() {
    let cfg = SystemConfig::new("h".to_string(), "{{home_dir}}/docs".to_string());
    let mut resolved: Vec<String> = Vec::new();
    for _ in 0..2 {
        let state = waiting_for_canonical(&cfg, "/home/u", "/home/u/docs", "/a/b.pdf");
        let next =
            state.advance(HostEvent::Canonicalized(Some("/home/u/docs/a/b.pdf".to_string())));
        match next {
            RunState::Opening { path } => resolved.push(path),
            other => panic!("expected the open step, got {:?}", other),
        }
    }
    assert_eq!(resolved[0], resolved[1]);
}

#[test]
fn run_waits_for_canonicalization_when_a_home_directory_exists() {
    let cfg = SystemConfig::new("h".to_string(), "/srv/files".to_string());
    let state = cfg.run("/a.pdf");
    if dirs::home_dir().is_some() {
        match state {
            RunState::Canonicalizing { candidate, base } => {
                assert_eq!(base, "/srv/files");
                assert_eq!(candidate, "/srv/files/a.pdf");
            },
            other => panic!("expected to wait for canonicalization, got {:?}", other),
        }
    } else {
        assert_eq!(state, RunState::Failed { error: RunError::NoHomeDirectory });
    }
}

#[test]
fn allowed_request_for_missing_file_reports_failure_not_rejection() {
    let linker = Linker::default();
    let url = "/missing.pdf";
    let is_allowed = linker.allow_request(true, url);
    assert!(is_allowed);
    let cfg = SystemConfig::new("h".to_string(), "/home/u/docs".to_string());
    let state = waiting_for_canonical(&cfg, "/home/u", "/home/u/docs", url);
    let next = state.advance(HostEvent::Canonicalized(None));
    let did_succeed = Some(next == RunState::Succeeded);
    let r = linker.server.handle_request(is_allowed, did_succeed);
    assert_eq!(r.status_code, 200);
    assert_eq!(r.body, "failed to start. check logs");
}

#[test]
fn allowed_request_that_opens_closes_the_tab() {
    let linker = Linker::default();
    let url = "/notes/report.pdf";
    let is_allowed = linker.allow_request(true, url);
    assert!(is_allowed);
    let cfg = SystemConfig::new("h".to_string(), "/home/u/docs".to_string());
    let state = waiting_for_canonical(&cfg, "/home/u", "/home/u/docs", url);
    let state = state.advance(HostEvent::Canonicalized(Some(
        "/home/u/docs/notes/report.pdf".to_string(),
    )));
    let state = state.advance(HostEvent::Opened(true));
    let did_succeed = Some(state == RunState::Succeeded);
    let r = linker.server.handle_request(is_allowed, did_succeed);
    assert_eq!(r.status_code, 200);
    assert_eq!(r.body, "<script>window.close()</script>tab should close now");
    assert!(r.html);
}
