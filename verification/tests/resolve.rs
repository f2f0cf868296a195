use toml_bombadil::paths::{path_is_absolute, path_join};
use toml_bombadil::resolver::{
    check_dotfiles_dir, root_from_outcome, Diagnostic, ImportOutcome, ImportReport, RootOutcome,
    SettingsError,
};
use toml_bombadil::settings::{ActiveProfile, Dot, ImportPath, ImportedSettings, Settings};
use toml_bombadil::strmap::StrMap;

fn settings_with(dotfiles_dir: &str, imports: Vec<&str>) -> Settings {
    Settings {
        dotfiles_dir: dotfiles_dir.to_string(),
        gpg_user_id: None,
        settings: ActiveProfile::default(),
        profiles: StrMap::new(),
        import: imports
            .into_iter()
            .map(|p| ImportPath {
                path: p.to_string(),
            })
            .collect(),
    }
}

fn fragment_with_dot(name: &str) -> ImportedSettings {
    let mut frag = ImportedSettings {
        settings: ActiveProfile::default(),
        profiles: StrMap::new(),
        import: Vec::new(),
    };
    frag.settings.dots.insert(
        name.to_string(),
        Dot {
            source: name.to_string(),
            target: format!(".config/{}", name),
        },
    );
    frag
}

#[test]
fn should_get_bombadil_path() {
    let path = Settings::bombadil_config_xdg_path();
    assert!(path.is_ok());
}

#[test]
fn config_path_in_a_chosen_directory_is_exact() {
    assert_eq!(
        Settings::bombadil_config_path_in("/home/someone/.config"),
        "/home/someone/.config/bombadil.toml"
    );
}

#[test]
fn bombadil_path_ends_with_config_file_name() {
    let path = Settings::bombadil_config_xdg_path().unwrap();
    assert!(path.ends_with("/bombadil.toml"));
}

#[test]
fn path_model_joins_and_classifies() {
    assert!(path_is_absolute("/tmp/dotfiles"));
    assert!(!path_is_absolute("dotfiles"));
    assert!(!path_is_absolute(""));
    assert_eq!(path_join("/tmp/dotfiles", "import.toml"), "/tmp/dotfiles/import.toml");
    assert_eq!(path_join("/tmp/dotfiles/", "import.toml"), "/tmp/dotfiles/import.toml");
}

#[test]
fn relative_imports_resolve_against_dotfiles_root() {
    let root = settings_with("/tmp/dotfiles", vec!["import.toml", "/abs/other.toml"]);
    let paths = root.import_paths("/tmp/dotfiles");
    assert_eq!(
        paths,
        vec![
            "/tmp/dotfiles/import.toml".to_string(),
            "/abs/other.toml".to_string()
        ]
    );
}

#[test]
fn resolve_dotfiles_dir_keeps_absolute_paths() {
    let root = settings_with("/tmp/dotfiles", vec![]);
    let home = "/home/someone".to_string();
    assert_eq!(
        root.resolve_dotfiles_dir(Some(&home)),
        Ok("/tmp/dotfiles".to_string())
    );
    assert_eq!(root.resolve_dotfiles_dir(None), Ok("/tmp/dotfiles".to_string()));
}

#[test]
fn resolve_dotfiles_dir_anchors_relative_paths_to_home() {
    let root = settings_with("dotfiles", vec![]);
    let home = "/home/someone".to_string();
    assert_eq!(
        root.resolve_dotfiles_dir(Some(&home)),
        Ok("/home/someone/dotfiles".to_string())
    );
}

#[test]
fn resolve_dotfiles_dir_without_home_is_fatal() {
    let root = settings_with("dotfiles", vec![]);
    let err = root.resolve_dotfiles_dir(None).unwrap_err();
    assert_eq!(err, SettingsError::HomeNotFound);
    assert_eq!(err.message(), "$HOME directory not found");
}

#[test]
fn empty_import_list_is_a_noop() {
    let mut root = settings_with("/tmp/dotfiles", vec![]);
    root.settings.prehooks.push("echo hi".to_string());

    let paths = root.import_paths("/tmp/dotfiles");
    assert!(paths.is_empty());
    let diags = root.merge_imports(Vec::new());

    assert!(diags.is_empty());
    assert_eq!(root.dotfiles_dir, "/tmp/dotfiles".to_string());
    assert_eq!(root.settings.prehooks, vec!["echo hi".to_string()]);
    assert_eq!(root.settings.posthooks.len(), 0);
    assert_eq!(root.settings.vars.len(), 0);
    assert_eq!(root.settings.dots.len(), 0);
    assert_eq!(root.profiles.len(), 0);
    assert_eq!(root.import.len(), 0);
}

#[test]
fn missing_imports_do_not_fail_the_load() {
    let mut root = settings_with("/tmp/dotfiles", vec!["a.toml", "b.toml"]);
    let reports = vec![
        ImportReport {
            path: "/tmp/dotfiles/a.toml".to_string(),
            outcome: ImportOutcome::Missing,
        },
        ImportReport {
            path: "/tmp/dotfiles/b.toml".to_string(),
            outcome: ImportOutcome::Missing,
        },
    ];

    let diags = root.merge_imports(reports);

    assert_eq!(diags.len(), 2);
    assert_eq!(
        diags[0],
        Diagnostic::MissingImport {
            path: "/tmp/dotfiles/a.toml".to_string()
        }
    );
    assert_eq!(
        diags[0].message(),
        "Unable to find bombadil import file: /tmp/dotfiles/a.toml"
    );
    assert_eq!(
        diags[1].message(),
        "Unable to find bombadil import file: /tmp/dotfiles/b.toml"
    );
    assert_eq!(root.settings.dots.len(), 0);
    assert_eq!(root.import.len(), 2);
}

#[test]
fn malformed_import_is_skipped_with_a_diagnostic() {
    let mut root = settings_with("/tmp/dotfiles", vec!["bad.toml", "good.toml"]);
    let reports = vec![
        ImportReport {
            path: "/tmp/dotfiles/bad.toml".to_string(),
            outcome: ImportOutcome::Malformed {
                detail: "expected a table".to_string(),
            },
        },
        ImportReport {
            path: "/tmp/dotfiles/good.toml".to_string(),
            outcome: ImportOutcome::Parsed {
                fragment: fragment_with_dot("vim"),
            },
        },
    ];

    let diags = root.merge_imports(reports);

    assert_eq!(diags.len(), 1);
    assert_eq!(
        diags[0].message(),
        "Error loading settings from: /tmp/dotfiles/bad.toml expected a table"
    );
    assert_eq!(root.settings.dots.len(), 1);
    assert!(root.settings.dots.contains_key(&"vim".to_string()));
}

#[test]
fn merged_import_contributes_dot_entries() {
    let mut root = settings_with("/tmp/import_test", vec!["import.toml"]);
    let paths = root.import_paths("/tmp/import_test");
    assert_eq!(paths, vec!["/tmp/import_test/import.toml".to_string()]);

    let reports = vec![ImportReport {
        path: paths[0].clone(),
        outcome: ImportOutcome::Parsed {
            fragment: fragment_with_dot("alacritty"),
        },
    }];
    let diags = root.merge_imports(reports);

    assert!(diags.is_empty());
    assert_eq!(root.dotfiles_dir, "/tmp/import_test".to_string());
    assert!(!root.settings.dots.is_empty());
    assert!(root.settings.dots.contains_key(&"alacritty".to_string()));
}

#[test]
fn fragment_imports_are_recorded_not_resolved() {
    let mut root = settings_with("/tmp/dotfiles", vec!["first.toml"]);
    let mut frag = fragment_with_dot("vim");
    frag.import.push(ImportPath {
        path: "chain.toml".to_string(),
    });

    let reports = vec![ImportReport {
        path: "/tmp/dotfiles/first.toml".to_string(),
        outcome: ImportOutcome::Parsed { fragment: frag },
    }];
    let diags = root.merge_imports(reports);

    assert!(diags.is_empty());
    assert_eq!(
        root.import,
        vec![
            ImportPath {
                path: "first.toml".to_string()
            },
            ImportPath {
                path: "chain.toml".to_string()
            }
        ]
    );
    assert_eq!(root.settings.dots.len(), 1);
}

#[test]
fn missing_root_file_is_fatal() {
    let err = root_from_outcome("/home/x/.config/bombadil.toml", RootOutcome::Missing).unwrap_err();
    assert_eq!(
        err,
        SettingsError::ConfigNotFound {
            path: "/home/x/.config/bombadil.toml".to_string()
        }
    );
    assert_eq!(
        err.message(),
        "Unable to find bombadil config file /home/x/.config/bombadil.toml"
    );
}

#[test]
fn unknown_root_key_is_a_format_error() {
    let err = root_from_outcome(
        "/home/x/.config/bombadil.toml",
        RootOutcome::Malformed {
            detail: "unknown field `dotfile_dir`".to_string(),
        },
    )
    .unwrap_err();
    assert_eq!(
        err,
        SettingsError::ConfigFormatError {
            detail: "unknown field `dotfile_dir`".to_string()
        }
    );
    assert_eq!(
        err.message(),
        "Config format error : unknown field `dotfile_dir`"
    );
}

#[test]
fn missing_dotfiles_dir_is_fatal_after_the_root_parses() {
    let parsed = root_from_outcome(
        "/home/x/.config/bombadil.toml",
        RootOutcome::Parsed {
            settings: settings_with("/nowhere/dotfiles", vec![]),
        },
    );
    let root = parsed.unwrap();

    let resolved = root.resolve_dotfiles_dir(None).unwrap();
    assert_eq!(resolved, "/nowhere/dotfiles".to_string());

    let err = check_dotfiles_dir(resolved, false).unwrap_err();
    assert_eq!(
        err,
        SettingsError::DotfilesDirMissing {
            path: "/nowhere/dotfiles".to_string()
        }
    );
    assert_eq!(
        err.message(),
        "Dotfiles directory /nowhere/dotfiles does not exist"
    );
}

#[test]
fn present_dotfiles_dir_passes_the_check() {
    assert_eq!(
        check_dotfiles_dir("/tmp".to_string(), true),
        Ok("/tmp".to_string())
    );
}

#[test]
fn config_dir_not_found_message() {
    assert_eq!(
        SettingsError::ConfigDirNotFound.message(),
        "Unable to find `$XDG_CONFIG/bombadil.toml`"
    );
}
