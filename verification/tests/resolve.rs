use linker::SystemConfig;
use linker::display_path;
use linker::join_under;
use linker::path_within_base;

#[test]
fn candidate_path_substitutes_home_placeholder() {
    let cfg = SystemConfig::new("h".to_string(), "{{home_dir}}/docs".to_string());
    assert_eq!(cfg.candidate_path("/home/u", "/a/b.pdf"), "/home/u/docs/a/b.pdf");
}

#[test]
fn candidate_path_without_placeholder_keeps_base() {
    let cfg = SystemConfig::new("h".to_string(), "/srv/files".to_string());
    assert_eq!(cfg.candidate_path("/home/u", "/a.pdf"), "/srv/files/a.pdf");
}

#[test]
fn candidate_path_strips_one_leading_separator() {
    let cfg = SystemConfig::new("h".to_string(), "/srv".to_string());
    assert_eq!(cfg.candidate_path("/home/u", "//a.pdf"), "/srv//a.pdf");
    assert_eq!(cfg.candidate_path("/home/u", "a.pdf"), "/srv/a.pdf");
}

#[test]
fn join_under_respects_trailing_separator() {
    assert_eq!(join_under("/srv/", "/a.pdf"), "/srv/a.pdf");
    assert_eq!(join_under("/srv", "/a.pdf"), "/srv/a.pdf");
    assert_eq!(join_under("", "/a.pdf"), "/a.pdf");
}

#[test]
fn display_path_strips_verbose_marker() {
    assert_eq!(display_path("\\\\?\\C:\\Users\\tim\\x.pdf"), "C:\\Users\\tim\\x.pdf");
    assert_eq!(display_path("/home/u/x.pdf"), "/home/u/x.pdf");
}

#[test]
fn display_path_strips_the_marker_once() {
    assert_eq!(display_path("\\\\?\\\\\\?\\x.pdf"), "\\\\?\\x.pdf");
}

#[test]
fn path_within_base_requires_a_segment_boundary() {
    assert!(path_within_base("/home/u/docs/a.pdf", "/home/u/docs"));
    assert!(path_within_base("/home/u/docs", "/home/u/docs"));
    assert!(!path_within_base("/home/u/docsevil/a.pdf", "/home/u/docs"));
    assert!(!path_within_base("/etc/passwd", "/home/u/docs"));
    assert!(path_within_base("C:\\Users\\tim\\a.pdf", "C:\\Users\\tim"));
}
