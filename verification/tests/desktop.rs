use forge::desktop::{
    compare_semver, database_file_name, installer_file_name, is_project_page,
    is_release_download, is_windows_x64_installer, needs_probe, next_name, normalize_version,
    numbered_file_name, reports_healthy, sidecar_file_name, sidecar_missing_message, startup_step,
    update_check, LanguagePreference, NameChoice, Preferences, ReleaseAsset, Startup, StartupAction,
    ThemePreference,
};

#[test]
fn strips_version_prefix() {
    assert_eq!(normalize_version("v0.3.0"), "0.3.0");
    assert_eq!(normalize_version("0.3.0"), "0.3.0");
}

#[test]
fn compares_semver_parts() {
    assert!(compare_semver("0.3.0", "0.2.1") > 0);
    assert_eq!(compare_semver("0.3.0", "v0.3.0"), 0);
    assert!(compare_semver("0.2.1", "0.3.0") < 0);
}

#[test]
fn accepts_windows_x64_setup_exe() {
    assert!(is_windows_x64_installer("Forge_0.3.0_x64-setup.exe"));
    assert!(!is_windows_x64_installer("Forge_0.3.0.dmg"));
    assert!(!is_windows_x64_installer("Forge_0.3.0_aarch64-setup.exe"));
}

#[test]
fn semver_pads_missing_parts_and_reads_junk_as_zero() {
    assert_eq!(compare_semver("1.2", "1.2.0"), 0);
    assert_eq!(compare_semver(" V1.2.x ", "1.2.0"), 0);
    assert_eq!(compare_semver("1.10.0", "1.9.9"), 1);
    assert_eq!(compare_semver("1.2.+3", "1.2.3"), 0);
    assert_eq!(compare_semver("18446744073709551616", "0"), 0);
    assert_eq!(compare_semver("18446744073709551615", "0"), 1);
    assert_eq!(normalize_version("  vVv1.0 "), "1.0");
}

#[test]
fn semver_comparison_is_antisymmetric_on_examples() {
    for (a, b) in [("0.3.0", "0.2.1"), ("1.0", "1.0.1"), ("2", "v2.0.0")] {
        assert_eq!(compare_semver(a, b), -compare_semver(b, a));
    }
}

#[test]
fn installer_match_ignores_ascii_case() {
    assert!(is_windows_x64_installer("FORGE_X64_SETUP.EXE"));
    assert!(!is_windows_x64_installer("forge_x64_setup.exe.zip"));
    assert!(!is_windows_x64_installer("forge_x64.exe"));
}

#[test]
fn shell_file_names() {
    assert_eq!(database_file_name(true), "forge-dev.db");
    assert_eq!(database_file_name(false), "forge.db");
    assert_eq!(sidecar_file_name(None, false), "forge-server");
    assert_eq!(
        sidecar_file_name(Some("x86_64-pc-windows-msvc"), true),
        "forge-server-x86_64-pc-windows-msvc.exe"
    );
    assert_eq!(numbered_file_name("Forge-setup", 2, "exe"), "Forge-setup-2.exe");
    assert_eq!(numbered_file_name("a", 907, "b"), "a-907.b");
    assert_eq!(installer_file_name(Some("Forge_x64-setup.EXE")), "Forge_x64-setup.EXE");
    assert_eq!(installer_file_name(Some("latest")), "Forge-setup.exe");
    assert_eq!(installer_file_name(None), "Forge-setup.exe");
}

#[test]
fn allowed_links_and_health() {
    assert!(is_release_download("https://github.com/x/y/releases/download/a.exe"));
    assert!(is_release_download("https://objects.githubusercontent.com/a"));
    assert!(!is_release_download("http://github.com/a"));
    assert!(is_project_page("https://github.com/sebastian-wong0412/Forge/releases"));
    assert!(!is_project_page("https://example.com"));
    assert!(reports_healthy("HTTP/1.1 200 OK\r\n\r\n{\"status\":\"ok\"}"));
    assert!(reports_healthy("{\"status\": \"ok\"}"));
    assert!(!reports_healthy("{\"status\":\"down\"}"));
}

#[test]
fn update_check_reports_latest_release() {
    let assets = vec![
        ReleaseAsset {
            name: "Forge_0.4.0.dmg".to_string(),
            browser_download_url: "https://github.com/a.dmg".to_string(),
        },
        ReleaseAsset {
            name: "Forge_0.4.0_x64-setup.exe".to_string(),
            browser_download_url: "https://github.com/a.exe".to_string(),
        },
    ];
    let check = update_check("0.3.0", " v0.4.0 ", Some("  notes \n".to_string()), assets).unwrap();
    assert_eq!(check.current_version, "0.3.0");
    assert_eq!(check.latest_version, "0.4.0");
    assert_eq!(check.notes, "notes");
    assert!(!check.up_to_date);
    assert_eq!(check.asset_name.as_deref(), Some("Forge_0.4.0_x64-setup.exe"));
    assert_eq!(check.download_url.as_deref(), Some("https://github.com/a.exe"));

    let same = update_check("0.4.0", "v0.4.0", None, Vec::new()).unwrap();
    assert!(same.up_to_date);
    assert_eq!(same.notes, "");
    assert_eq!(same.asset_name, None);
    assert!(update_check("0.4.0", "   ", None, Vec::new()).is_err());
}

#[test]
fn preferences_default_to_system() {
    let p = Preferences::default();
    assert_eq!(p.language, LanguagePreference::System);
    assert_eq!(p.theme, ThemePreference::System);
    assert_eq!(LanguagePreference::default(), LanguagePreference::System);
    assert_eq!(ThemePreference::default(), ThemePreference::System);
}

#[test]
fn a_server_that_already_answers_is_used() {
    assert!(needs_probe(Startup::Probing));
    assert!(matches!(startup_step(Startup::Probing, true), StartupAction::Ready));
    assert!(matches!(startup_step(Startup::Probing, false), StartupAction::Spawn));
}

#[test]
fn a_started_server_is_probed_until_the_wait_runs_out() {
    let early = Startup::Waiting { elapsed_ms: 0 };
    assert!(needs_probe(early));
    assert!(matches!(startup_step(early, true), StartupAction::Ready));
    assert!(matches!(startup_step(early, false), StartupAction::Retry { after_ms: 100 }));
    let last = Startup::Waiting { elapsed_ms: 19_999 };
    assert!(needs_probe(last));
    assert!(matches!(startup_step(last, false), StartupAction::Retry { after_ms: 100 }));
    let late = Startup::Waiting { elapsed_ms: 20_000 };
    assert!(!needs_probe(late));
    match startup_step(late, true) {
        StartupAction::GiveUp { message } => assert_eq!(
            message,
            "backend did not become ready at http://127.0.0.1:17340 within 20s"
        ),
        other => panic!("expected to give up, got {other:?}"),
    }
}

#[test]
fn a_missing_server_executable_names_each_place_looked_at() {
    assert_eq!(
        sidecar_missing_message("a/forge-server", "a/forge-server-x", "b/binaries/forge-server-x"),
        "backend executable not found (looked for `a/forge-server`, `a/forge-server-x`, `b/binaries/forge-server-x`)"
    );
}

#[test]
fn a_download_takes_the_first_free_name() {
    assert_eq!(next_name(None, false), NameChoice::Take);
    assert_eq!(next_name(None, true), NameChoice::TryNumbered { index: 2 });
    assert_eq!(next_name(Some(2), true), NameChoice::TryNumbered { index: 3 });
    assert_eq!(next_name(Some(7), false), NameChoice::Take);
    assert_eq!(next_name(Some(998), true), NameChoice::TryNumbered { index: 999 });
    assert_eq!(next_name(Some(999), true), NameChoice::KeepPlain);
}
