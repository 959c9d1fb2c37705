use sandbox_backend::sandbox_fs::{apply_landlock, landlock_rules, LandlockOutcome, RuleKind};

fn views(root: &str, allowed: &[String]) -> Option<Vec<(String, RuleKind)>> {
    landlock_rules(root, allowed).map(|rules| rules.into_iter().map(|r| (r.path, r.kind)).collect())
}

fn system_rules() -> Vec<(String, RuleKind)> {
    let mut v: Vec<(String, RuleKind)> = ["/usr", "/lib", "/lib64", "/lib32", "/etc/fonts", "/proc/self", "/dev"]
        .iter()
        .map(|p| (p.to_string(), RuleKind::System))
        .collect();
    v.push(("/tmp/.X11-unix".to_string(), RuleKind::X11));
    v
}

#[test]
fn rules_with_storage_root() {
    let mut expected = system_rules();
    expected.push(("/data/owner1".to_string(), RuleKind::Data));
    assert_eq!(views("/data/owner1", &[]), Some(expected));
}

#[test]
fn allowed_paths_replace_root() {
    let allowed = vec!["/data/o/docs".to_string(), "/data/o/pics".to_string()];
    let mut expected = system_rules();
    expected.push(("/data/o/docs".to_string(), RuleKind::Data));
    expected.push(("/data/o/pics".to_string(), RuleKind::Data));
    assert_eq!(views("/data/o", &allowed), Some(expected));
}

#[test]
fn nothing_to_restrict() {
    assert_eq!(views("", &[]), None);
    assert!(matches!(apply_landlock("", &[]), Ok(LandlockOutcome::Unrestricted)));
}
