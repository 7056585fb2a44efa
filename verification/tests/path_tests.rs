use dropout_core::java::strip_unc_prefix;

#[test]
fn test_strip_unc_prefix() {
    let unc_path = String::from(r"\\?\C:\Windows\System32\cmd.exe");
    let stripped = strip_unc_prefix(unc_path, true);
    assert_eq!(stripped, r"C:\Windows\System32\cmd.exe");

    let normal_path = String::from(r"C:\Windows\System32\cmd.exe");
    let unchanged = strip_unc_prefix(normal_path.clone(), true);
    assert_eq!(unchanged, normal_path);

    let path = String::from("/usr/bin/java");
    let unchanged = strip_unc_prefix(path.clone(), false);
    assert_eq!(unchanged, path);
}

#[test]
fn unc_prefix_stays_where_the_platform_is_not_windows() {
    let path = String::from(r"\\?\C:\java.exe");
    assert_eq!(strip_unc_prefix(path.clone(), false), path);
}

#[test]
fn unc_prefix_alone_strips_to_nothing() {
    assert_eq!(strip_unc_prefix(String::from(r"\\?\"), true), "");
    assert_eq!(strip_unc_prefix(String::from(r"\\?"), true), r"\\?");
    assert_eq!(strip_unc_prefix(String::new(), true), "");
}
