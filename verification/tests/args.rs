use ginkou_loader::Args;

fn args(wallet_path: &str, data_path: &str) -> Args {
    Args {
        dev_port: Some(5173),
        html_path: Some("/opt/ginkou".to_string()),
        melwalletd_path: "melwalletd".to_string(),
        data_path: data_path.to_string(),
        wallet_path: wallet_path.to_string(),
        version_string: Some("1.0".to_string()),
        debug_window_open: true,
    }
}

#[test]
fn named_directories_stay_as_they_are() {
    let local = Some("/home/alice/.local/share".to_string());
    assert_eq!(args("/w", "/d").with_default_dirs(&local), Some(args("/w", "/d")));
    assert_eq!(args("/w", "/d").with_default_dirs(&None), Some(args("/w", "/d")));
}

#[test]
fn empty_directories_default_under_the_local_data_directory() {
    let local = Some("/home/alice/.local/share".to_string());
    assert_eq!(
        args("", "").with_default_dirs(&local),
        Some(args(
            "/home/alice/.local/share/themelio-wallets",
            "/home/alice/.local/share/themelio-wallet-gui-data"
        ))
    );
    assert_eq!(
        args("/w", "").with_default_dirs(&local),
        Some(args("/w", "/home/alice/.local/share/themelio-wallet-gui-data"))
    );
    assert_eq!(
        args("", "/d").with_default_dirs(&local),
        Some(args("/home/alice/.local/share/themelio-wallets", "/d"))
    );
}

#[test]
fn empty_directories_without_a_local_data_directory_have_no_default() {
    assert_eq!(args("", "").with_default_dirs(&None), None);
    assert_eq!(args("/w", "").with_default_dirs(&None), None);
    assert_eq!(args("", "/d").with_default_dirs(&None), None);
}

#[test]
fn resolve_dirs_leaves_named_directories_alone() {
    assert_eq!(args("/w", "/d").resolve_dirs(), Some(args("/w", "/d")));
}

#[test]
fn resolve_dirs_defaults_end_in_the_fixed_names() {
    if let Some(resolved) = args("", "").resolve_dirs() {
        assert!(resolved.wallet_path.ends_with("themelio-wallets"));
        assert!(resolved.data_path.ends_with("themelio-wallet-gui-data"));
        assert_eq!(resolved.dev_port, Some(5173));
        assert_eq!(resolved.version_string, Some("1.0".to_string()));
    }
}
