use taskbar_shortcuts::resolve::{finish_target, resolve_target, TargetResolution};
use taskbar_shortcuts::shortcut::ShortcutRecord;

fn record(link: Option<&str>, wd: Option<&str>, rel: Option<&str>) -> ShortcutRecord {
    ShortcutRecord {
        link_target: link.map(|s| s.to_string()),
        working_dir: wd.map(|s| s.to_string()),
        relative_path: rel.map(|s| s.to_string()),
        icon_location: None,
        command_line_arguments: None,
        icon_index: 0,
    }
}

#[test]
fn named_exception_overrides_embedded_target() {
    let r = record(Some("D:\\elsewhere\\other.exe"), None, None);
    let res = resolve_target(&r, &"File Explorer".to_string());
    match res {
        TargetResolution::Resolved(t) => assert_eq!(t, "C:\\Windows\\explorer.exe"),
        _ => panic!("expected a resolved target"),
    }
}

#[test]
fn named_exception_without_any_target() {
    let r = record(None, None, None);
    let res = resolve_target(&r, &"File Explorer".to_string());
    match res {
        TargetResolution::Resolved(t) => assert_eq!(t, "C:\\Windows\\explorer.exe"),
        _ => panic!("expected a resolved target"),
    }
}

#[test]
fn embedded_target_returned_verbatim() {
    let r = record(Some("C:\\Tools\\tool.exe"), Some("C:\\ignored"), Some("ignored.exe"));
    let res = resolve_target(&r, &"Tool".to_string());
    match res {
        TargetResolution::Resolved(t) => assert_eq!(t, "C:\\Tools\\tool.exe"),
        _ => panic!("expected a resolved target"),
    }
}

#[test]
fn candidates_join_working_dir_and_parent() {
    let r = record(None, Some("C:\\Apps\\Editor"), Some("..\\Editor\\editor.exe"));
    let res = resolve_target(&r, &"Editor".to_string());
    match res {
        TargetResolution::Candidates(direct, via_parent) => {
            assert_eq!(direct, "C:\\Apps\\Editor\\..\\Editor\\editor.exe");
            assert_eq!(via_parent, "C:\\Apps\\..\\Editor\\editor.exe");
        },
        _ => panic!("expected join candidates"),
    }
}

#[test]
fn missing_working_dir_treated_as_empty() {
    let r = record(None, None, Some("editor.exe"));
    let res = resolve_target(&r, &"Editor".to_string());
    match res {
        TargetResolution::Candidates(direct, via_parent) => {
            assert_eq!(direct, "editor.exe");
            assert_eq!(via_parent, "C:\\editor.exe");
        },
        _ => panic!("expected join candidates"),
    }
}

#[test]
fn parent_fallback_wins_when_direct_fails() {
    let r = record(None, Some("C:\\Gone\\Sub"), Some("..\\Sub\\tool.exe"));
    let res = resolve_target(&r, &"Tool".to_string());
    assert!(matches!(res, TargetResolution::Candidates(_, _)));
    let t = finish_target(res, None, Some("C:\\Real\\Sub\\tool.exe".to_string()));
    assert_eq!(t, Some("C:\\Real\\Sub\\tool.exe".to_string()));
}

#[test]
fn direct_canonicalization_wins_over_parent() {
    let r = record(None, Some("C:\\Apps"), Some("tool.exe"));
    let res = resolve_target(&r, &"Tool".to_string());
    let t = finish_target(
        res,
        Some("C:\\Apps\\tool.exe".to_string()),
        Some("C:\\Other\\tool.exe".to_string()),
    );
    assert_eq!(t, Some("C:\\Apps\\tool.exe".to_string()));
}

#[test]
fn exhausted_fallbacks_degrade_to_empty_target() {
    let r = record(None, Some("C:\\Gone"), Some("tool.exe"));
    let res = resolve_target(&r, &"Tool".to_string());
    let t = finish_target(res, None, None);
    assert_eq!(t, Some("".to_string()));
}

#[test]
fn record_without_target_or_relative_path_is_unresolvable() {
    let r = record(None, Some("C:\\Apps"), None);
    let res = resolve_target(&r, &"Tool".to_string());
    assert!(matches!(res, TargetResolution::Unresolvable));
    let t = finish_target(res, None, None);
    assert_eq!(t, None);
}
