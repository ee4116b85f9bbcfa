use linker::Linker;
use linker::ServerConfig;

#[test]
fn disallowed_request_gets_401_does_not_comply() {
    let server = ServerConfig::new(80, "0.0.0.0".to_string(), true);
    let r = server.handle_request(false, None);
    assert_eq!(r.status_code, 401);
    assert_eq!(r.body, "does not comply");
    assert!(!r.html);
}

#[test]
fn success_with_close_tab_gets_html_snippet() {
    let server = ServerConfig::new(80, "0.0.0.0".to_string(), true);
    let r = server.handle_request(true, Some(true));
    assert_eq!(r.status_code, 200);
    assert_eq!(r.body, "<script>window.close()</script>tab should close now");
    assert!(r.html);
}

#[test]
fn success_without_close_tab_gets_plain_ok() {
    let server = ServerConfig::new(80, "0.0.0.0".to_string(), false);
    let r = server.handle_request(true, Some(true));
    assert_eq!(r.status_code, 200);
    assert_eq!(r.body, "ok");
    assert!(!r.html);
}

#[test]
fn failed_open_gets_check_logs_body() {
    let server = ServerConfig::new(80, "0.0.0.0".to_string(), true);
    let r = server.handle_request(true, Some(false));
    assert_eq!(r.status_code, 200);
    assert_eq!(r.body, "failed to start. check logs");
    assert!(!r.html);
}

#[test]
fn allowed_without_open_attempt_gets_check_logs_body() {
    let server = ServerConfig::new(80, "0.0.0.0".to_string(), true);
    let r = server.handle_request(true, None);
    assert_eq!(r.status_code, 200);
    assert_eq!(r.body, "failed to start. check logs");
}

#[test]
fn absent_config_falls_back_to_defaults() {
    let linker = Linker::default();
    assert_eq!(linker.server.port(), 80);
    assert_eq!(linker.server.addr(), "0.0.0.0");
    assert!(linker.server.close_tab());
    assert!(!linker.allow_request(false, "/report.pdf"));
    let r = linker.server.handle_request(false, None);
    assert_eq!(r.status_code, 401);
    assert_eq!(r.body, "does not comply");
}
