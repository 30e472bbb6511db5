use build_version::describe::describe_result;
use build_version::render::render_content;
use build_version::sync::{is_fresh, Action, Event, VersionSync};

const SOME_LINE: &str =
    "static GIT_BUILD_VERSION: Option<&'static str> = Some(\"v1.2.3-4-gabcde12\");\n";
const NONE_LINE: &str = "static GIT_BUILD_VERSION: Option<&'static str> = None;\n";

/// Runs the machine with every action succeeding; returns the file afterwards
/// and whether it was written.
fn run_once(describe: Option<&str>, file: Option<String>) -> (Option<String>, bool) {
    let (mut sync, mut action) = VersionSync::start(true);
    let mut file = file;
    let mut wrote = false;
    loop {
        let event = match action {
            Action::CreateDir => Event::DirCreated,
            Action::Describe => Event::Described { describe: describe.map(|d| d.to_string()) },
            Action::ReadExisting => Event::ExistingRead { existing: file.clone() },
            Action::Write { content } => {
                file = Some(content);
                wrote = true;
                Event::Written
            }
            Action::Finish => return (file, wrote),
            Action::MissingEnvVar => panic!("unexpected failure"),
        };
        action = sync.step(event);
    }
}

#[test]
fn renders_present_describe() {
    assert_eq!(render_content(Some("v1.2.3-4-gabcde12")), SOME_LINE);
}

#[test]
fn renders_absent_describe() {
    assert_eq!(render_content(None), NONE_LINE);
}

#[test]
fn renders_empty_describe() {
    assert_eq!(
        render_content(Some("")),
        "static GIT_BUILD_VERSION: Option<&'static str> = Some(\"\");\n"
    );
}

#[test]
fn rendering_is_deterministic() {
    assert_eq!(render_content(Some("v1.2.4")), render_content(Some("v1.2.4")));
    assert_eq!(render_content(None), render_content(None));
    assert_ne!(render_content(Some("v1.2.4")), render_content(Some("v1.2.3")));
    assert_ne!(render_content(Some("None")), render_content(None));
}

#[test]
fn fresh_only_on_equal_content() {
    let content = SOME_LINE.to_string();
    assert!(is_fresh(&Some(SOME_LINE.to_string()), &content));
    assert!(!is_fresh(&Some(NONE_LINE.to_string()), &content));
    assert!(!is_fresh(&Some(String::new()), &content));
    assert!(!is_fresh(&None, &content));
    assert!(is_fresh(&Some(String::new()), &String::new()));
}

#[test]
fn describe_result_is_trimmed() {
    assert_eq!(describe_result(true, b"v1.2.3-4-gabcde12\n"), Some("v1.2.3-4-gabcde12".to_string()));
    assert_eq!(describe_result(true, b"  \tv1.2.4 \r\n"), Some("v1.2.4".to_string()));
}

#[test]
fn describe_result_empty() {
    assert_eq!(describe_result(true, b""), Some(String::new()));
    assert_eq!(describe_result(true, b" \n"), Some(String::new()));
}

#[test]
fn describe_result_rejects_invalid_utf8() {
    assert_eq!(describe_result(true, &[0x76, 0xff, 0x31]), None);
    assert_eq!(describe_result(true, &[0xc3]), None);
}

#[test]
fn describe_result_keeps_multibyte_text() {
    assert_eq!(describe_result(true, "  v1-é \n".as_bytes()), Some("v1-é".to_string()));
}

#[test]
fn run_creates_directory_first() {
    let (sync, action) = VersionSync::start(true);
    assert_eq!(action, Action::CreateDir);
    assert_eq!(sync, VersionSync::CreatingDir);
}

#[test]
fn run_full_sequence() {
    let (mut sync, action) = VersionSync::start(true);
    assert_eq!(action, Action::CreateDir);
    assert_eq!(sync.step(Event::DirCreated), Action::Describe);
    let a = sync.step(Event::Described { describe: Some("v1.2.3-4-gabcde12".to_string()) });
    assert_eq!(a, Action::ReadExisting);
    let a = sync.step(Event::ExistingRead { existing: None });
    assert_eq!(a, Action::Write { content: SOME_LINE.to_string() });
    assert_eq!(sync.step(Event::Written), Action::Finish);
    assert_eq!(sync, VersionSync::Done);
}

#[test]
fn missing_out_dir_fails_without_writing() {
    let (mut sync, action) = VersionSync::start(false);
    assert_eq!(action, Action::MissingEnvVar);
    assert_eq!(sync.step(Event::DirCreated), Action::MissingEnvVar);
    assert_eq!(sync.step(Event::ExistingRead { existing: None }), Action::MissingEnvVar);
    assert_eq!(sync, VersionSync::Failed);
}

#[test]
fn unexpected_event_repeats_request() {
    let (mut sync, _) = VersionSync::start(true);
    assert_eq!(sync.step(Event::Written), Action::CreateDir);
    assert_eq!(sync, VersionSync::CreatingDir);
    sync.step(Event::DirCreated);
    assert_eq!(sync.step(Event::DirCreated), Action::Describe);
}

#[test]
fn absent_describe_still_succeeds() {
    let (file, wrote) = run_once(None, None);
    assert_eq!(file, Some(NONE_LINE.to_string()));
    assert!(wrote);
}

#[test]
fn second_run_writes_nothing() {
    let (first, wrote_first) = run_once(Some("v1.2.3-4-gabcde12"), None);
    assert!(wrote_first);
    let (second, wrote_second) = run_once(Some("v1.2.3-4-gabcde12"), first.clone());
    assert!(!wrote_second);
    assert_eq!(second, first);
}

#[test]
fn changed_describe_rewrites() {
    let (first, _) = run_once(Some("v1.2.3-4-gabcde12"), None);
    let (second, wrote) = run_once(Some("v1.2.4"), first);
    assert!(wrote);
    assert_eq!(
        second,
        Some("static GIT_BUILD_VERSION: Option<&'static str> = Some(\"v1.2.4\");\n".to_string())
    );
}

#[test]
fn scenario_describe_then_rerun_then_change() {
    let (file, wrote) = run_once(Some("v1.2.3-4-gabcde12"), None);
    assert!(wrote);
    assert_eq!(file.as_deref(), Some(SOME_LINE));
    let (file, wrote) = run_once(Some("v1.2.3-4-gabcde12"), file);
    assert!(!wrote);
    assert_eq!(file.as_deref(), Some(SOME_LINE));
    let (file, wrote) = run_once(Some("v1.2.4"), file);
    assert!(wrote);
    assert_eq!(
        file.as_deref(),
        Some("static GIT_BUILD_VERSION: Option<&'static str> = Some(\"v1.2.4\");\n")
    );
}

#[test]
fn stale_file_is_rewritten() {
    let (file, wrote) = run_once(Some("v1.2.4"), Some("garbage".to_string()));
    assert!(wrote);
    assert_eq!(
        file,
        Some("static GIT_BUILD_VERSION: Option<&'static str> = Some(\"v1.2.4\");\n".to_string())
    );
}

#[test]
fn failed_query_gives_no_describe() {
    assert_eq!(describe_result(false, b""), None);
    assert_eq!(describe_result(false, b"fatal: not a git repository\n"), None);
    assert_eq!(describe_result(false, b"v1.2.4\n"), None);
}

#[test]
fn failed_query_renders_none() {
    let describe = describe_result(false, b"");
    assert_eq!(render_content(describe.as_deref()), NONE_LINE);
}

#[test]
fn renders_quote_escaped() {
    assert_eq!(
        render_content(Some("\"")),
        "static GIT_BUILD_VERSION: Option<&'static str> = Some(\"\\\"\");\n"
    );
}

#[test]
fn renders_backslash_and_line_breaks_escaped() {
    assert_eq!(
        render_content(Some("a\\b\nc\rd\"e")),
        "static GIT_BUILD_VERSION: Option<&'static str> = Some(\"a\\\\b\\nc\\rd\\\"e\");\n"
    );
}

#[test]
fn escaping_keeps_texts_apart() {
    assert_ne!(render_content(Some("\\\"")), render_content(Some("\"")));
    assert_ne!(render_content(Some("\n")), render_content(Some("\\n")));
}
