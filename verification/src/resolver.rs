//! Path resolution and import resolution.
//!
//! Reading the host's directories and the fragment files themselves is
//! the caller's concern: the functions here either compute paths from
//! values, or decide what a read's outcome means for the accumulating
//! settings. `merge_imports` folds a batch of per-import outcomes into
//! the settings, never failing: a missing or malformed import only
//! produces a diagnostic.

use crate::host::{config_dir, home_dir};
use crate::paths::{abs_path, joined, path_is_absolute, path_join};
use crate::settings::{merged, ImportedSettings, Settings, SettingsV};
use vstd::prelude::*;
use vstd::string::StringExecFns;

verus! {

/// A fatal error of the load: the root file or the host environment is
/// unusable, and no settings value is produced.
#[derive(Debug, Clone, PartialEq)]
pub enum SettingsError {
    /// The host has no standard configuration directory.
    ConfigDirNotFound,
    /// The host has no home directory, and the dotfiles directory is
    /// relative.
    HomeNotFound,
    /// The root configuration file does not exist at its path.
    ConfigNotFound {
        /// The path at which the root file was expected.
        path: String,
    },
    /// The root configuration file exists but does not parse.
    ConfigFormatError {
        /// The underlying parse diagnostic.
        detail: String,
    },
    /// The resolved dotfiles directory does not exist on disk.
    DotfilesDirMissing {
        /// The resolved directory path.
        path: String,
    },
}

/// The text of a fatal error.
pub open spec fn spec_error_message(e: SettingsError) -> Seq<char> {
    match e {
        SettingsError::ConfigDirNotFound => "Unable to find `$XDG_CONFIG/bombadil.toml`"@,
        SettingsError::HomeNotFound => "$HOME directory not found"@,
        SettingsError::ConfigNotFound { path } => "Unable to find bombadil config file "@ + path@,
        SettingsError::ConfigFormatError { detail } => "Config format error : "@ + detail@,
        SettingsError::DotfilesDirMissing { path } => "Dotfiles directory "@ + path@
            + " does not exist"@,
    }
}

impl SettingsError {
    /// The error's text.
    pub fn message(&self) -> (r: String)
        ensures
            r@ == spec_error_message(*self),
    {
        match self {
            SettingsError::ConfigDirNotFound => "Unable to find `$XDG_CONFIG/bombadil.toml`".to_owned(),
            SettingsError::HomeNotFound => "$HOME directory not found".to_owned(),
            SettingsError::ConfigNotFound { path } => {
                let mut m = "Unable to find bombadil config file ".to_owned();
                m.append(path.as_str());
                m
            },
            SettingsError::ConfigFormatError { detail } => {
                let mut m = "Config format error : ".to_owned();
                m.append(detail.as_str());
                m
            },
            SettingsError::DotfilesDirMissing { path } => {
                let mut m = "Dotfiles directory ".to_owned();
                m.append(path.as_str());
                m.append(" does not exist");
                m
            },
        }
    }
}

/// A non-fatal, per-import failure, recorded and skipped.
#[derive(Debug, Clone, PartialEq)]
pub enum Diagnostic {
    /// The resolved import file does not exist.
    MissingImport {
        /// The resolved import path.
        path: String,
    },
    /// The import file exists but does not parse as a fragment.
    ImportFormatError {
        /// The resolved import path.
        path: String,
        /// The underlying parse diagnostic.
        detail: String,
    },
}

/// The text of a diagnostic.
pub open spec fn spec_diagnostic_message(d: Diagnostic) -> Seq<char> {
    match d {
        Diagnostic::MissingImport { path } => "Unable to find bombadil import file: "@ + path@,
        Diagnostic::ImportFormatError { path, detail } => "Error loading settings from: "@ + path@
            + " "@ + detail@,
    }
}

impl Diagnostic {
    /// The diagnostic's text.
    pub fn message(&self) -> (r: String)
        ensures
            r@ == spec_diagnostic_message(*self),
    {
        match self {
            Diagnostic::MissingImport { path } => {
                let mut m = "Unable to find bombadil import file: ".to_owned();
                m.append(path.as_str());
                m
            },
            Diagnostic::ImportFormatError { path, detail } => {
                let mut m = "Error loading settings from: ".to_owned();
                m.append(path.as_str());
                m.append(" ");
                m.append(detail.as_str());
                m
            },
        }
    }
}

/// What reading one import file yielded.
#[derive(Debug)]
pub enum ImportOutcome {
    /// The file does not exist at its resolved path.
    Missing,
    /// The file exists but does not parse as a fragment.
    Malformed {
        /// The underlying parse diagnostic.
        detail: String,
    },
    /// The file parsed as a fragment.
    Parsed {
        /// The parsed fragment.
        fragment: ImportedSettings,
    },
}

/// One attempted import: its resolved path and what reading it yielded.
#[derive(Debug)]
pub struct ImportReport {
    /// The resolved import path.
    pub path: String,
    /// What reading the file yielded.
    pub outcome: ImportOutcome,
}

/// What reading the root configuration file yielded.
#[derive(Debug)]
pub enum RootOutcome {
    /// The file does not exist at its resolved path.
    Missing,
    /// The file exists but does not parse against the root schema.
    Malformed {
        /// The underlying parse diagnostic.
        detail: String,
    },
    /// The file parsed as root settings.
    Parsed {
        /// The parsed settings.
        settings: Settings,
    },
}

/// Where an import path leads: absolute paths stand as they are,
/// relative ones are anchored to the dotfiles root.
pub open spec fn resolved_import(dotfiles: Seq<char>, p: Seq<char>) -> Seq<char> {
    if abs_path(p) {
        p
    } else {
        joined(dotfiles, p)
    }
}

/// What one attempted import does to the settings: a parsed fragment is
/// merged, anything else changes nothing.
pub open spec fn applied(s: SettingsV, r: ImportReport) -> SettingsV {
    match r.outcome {
        ImportOutcome::Parsed { fragment } => merged(s, fragment@),
        _ => s,
    }
}

/// Folding a batch of attempted imports over the settings, first to
/// last.
pub open spec fn applied_all(s: SettingsV, rs: Seq<ImportReport>) -> SettingsV
    decreases rs.len(),
{
    if rs.len() == 0 {
        s
    } else {
        applied_all(applied(s, rs.first()), rs.drop_first())
    }
}

/// The diagnostics a batch of attempted imports leaves behind: one per
/// import that was not parsed, in import order.
pub open spec fn diagnostics_of(rs: Seq<ImportReport>) -> Seq<Diagnostic>
    decreases rs.len(),
{
    if rs.len() == 0 {
        Seq::empty()
    } else {
        match rs.first().outcome {
            ImportOutcome::Missing => seq![
                Diagnostic::MissingImport { path: rs.first().path },
            ] + diagnostics_of(rs.drop_first()),
            ImportOutcome::Malformed { detail } => seq![
                Diagnostic::ImportFormatError { path: rs.first().path, detail },
            ] + diagnostics_of(rs.drop_first()),
            ImportOutcome::Parsed { .. } => diagnostics_of(rs.drop_first()),
        }
    }
}

/// The dotfiles directory must exist on disk; the caller checks and
/// hands the answer in.
pub fn check_dotfiles_dir(path: String, present: bool) -> (r: Result<String, SettingsError>)
    ensures
        present ==> (r matches Ok(p) && p == path),
        !present ==> (r matches Err(e) && e == (SettingsError::DotfilesDirMissing { path })),
{
    if present {
        Ok(path)
    } else {
        Err(SettingsError::DotfilesDirMissing { path })
    }
}

/// What reading the root file means for the load: a missing root file
/// and a malformed root file are fatal, a parsed one is the result.
pub fn root_from_outcome(path: &str, outcome: RootOutcome) -> (r: Result<Settings, SettingsError>)
    ensures
        match outcome {
            RootOutcome::Missing => r matches Err(e) && e matches SettingsError::ConfigNotFound {
                path: p,
            } && p@ == path@,
            RootOutcome::Malformed { detail } => r matches Err(e) && e
                matches SettingsError::ConfigFormatError { detail: d } && d == detail,
            RootOutcome::Parsed { settings } => r matches Ok(s) && s == settings,
        },
{
    match outcome {
        RootOutcome::Missing => Err(SettingsError::ConfigNotFound { path: path.to_owned() }),
        RootOutcome::Malformed { detail } => Err(SettingsError::ConfigFormatError { detail }),
        RootOutcome::Parsed { settings } => Ok(settings),
    }
}

impl Settings {
    /// The root configuration file's path inside a given configuration
    /// directory: the directory joined with the fixed file name.
    pub fn bombadil_config_path_in(config_dir: &str) -> (r: String)
        ensures
            r@ == joined(config_dir@, crate::spec_bombadil_config_file()),
    {
        path_join(config_dir, crate::bombadil_config_file())
    }

    /// The root configuration file's path: the host's standard
    /// configuration directory joined with the fixed file name. Queries
    /// the host through `config_dir`; `bombadil_config_path_in` is the
    /// same computation for a directory the caller chooses.
    pub fn bombadil_config_xdg_path() -> (r: Result<String, SettingsError>)
        ensures
            match r {
                Ok(p) => exists|d: Seq<char>|
                    p@ == joined(d, crate::spec_bombadil_config_file()),
                Err(e) => e == SettingsError::ConfigDirNotFound,
            },
    {
        match config_dir() {
            None => Err(SettingsError::ConfigDirNotFound),
            Some(d) => {
                let p = Self::bombadil_config_path_in(d.as_str());
                proof {
                    assert(p@ == joined(d@, crate::spec_bombadil_config_file()));
                }
                Ok(p)
            },
        }
    }

    /// The dotfiles root for a given home directory: `dotfiles_dir` as
    /// it stands when absolute, else joined onto the home directory;
    /// without a home directory a relative `dotfiles_dir` is fatal.
    pub fn resolve_dotfiles_dir(&self, home: Option<&String>) -> (r: Result<
        String,
        SettingsError,
    >)
        ensures
            abs_path(self.dotfiles_dir@) ==> (r matches Ok(p) && p@ == self.dotfiles_dir@),
            !abs_path(self.dotfiles_dir@) ==> match home {
                Some(h) => r matches Ok(p) && p@ == joined(h@, self.dotfiles_dir@),
                None => r == Err::<String, SettingsError>(SettingsError::HomeNotFound),
            },
    {
        if path_is_absolute(self.dotfiles_dir.as_str()) {
            Ok(self.dotfiles_dir.clone())
        } else {
            match home {
                Some(h) => Ok(path_join(h.as_str(), self.dotfiles_dir.as_str())),
                None => Err(SettingsError::HomeNotFound),
            }
        }
    }

    /// The dotfiles root against the host's home directory. Whether the
    /// directory exists on disk is the caller's check, through
    /// `check_dotfiles_dir`.
    pub fn get_dotfiles_path(&self) -> (r: Result<String, SettingsError>)
        ensures
            match r {
                Ok(p) => (abs_path(self.dotfiles_dir@) ==> p@ == self.dotfiles_dir@) && (!abs_path(
                    self.dotfiles_dir@,
                ) ==> exists|h: Seq<char>| p@ == joined(h, self.dotfiles_dir@)),
                Err(e) => e == SettingsError::HomeNotFound && !abs_path(self.dotfiles_dir@),
            },
    {
        let home = home_dir();
        let r = self.resolve_dotfiles_dir(home.as_ref());
        proof {
            if !abs_path(self.dotfiles_dir@) && home is Some {
                let h = home->0;
                assert(r matches Ok(p) ==> p@ == joined(h@, self.dotfiles_dir@));
            }
        }
        r
    }

    /// The absolute path of each entry of the import list, in order:
    /// absolute entries as they stand, relative ones anchored to the
    /// dotfiles root.
    pub fn import_paths(&self, dotfiles_path: &str) -> (r: Vec<String>)
        ensures
            r@.len() == self.import@.len(),
            forall|i: int|
                0 <= i < r@.len() ==> r@[i]@ == resolved_import(
                    dotfiles_path@,
                    self.import@[i].path@,
                ),
    {
        let mut out: Vec<String> = Vec::new();
        let n = self.import.len();
        let mut i: usize = 0;
        while i < n
            invariant
                i <= n,
                n == self.import@.len(),
                out@.len() == i,
                forall|j: int|
                    0 <= j < i ==> out@[j]@ == resolved_import(
                        dotfiles_path@,
                        self.import@[j].path@,
                    ),
            decreases n - i,
        {
            let p = &self.import[i].path;
            if path_is_absolute(p.as_str()) {
                out.push(p.clone());
            } else {
                out.push(path_join(dotfiles_path, p.as_str()));
            }
            i = i + 1;
        }
        out
    }

    /// Fold a batch of attempted imports into these settings, first to
    /// last: each parsed fragment is merged at once, each missing or
    /// malformed import is skipped and leaves one diagnostic. The batch
    /// never fails as a whole.
    pub fn merge_imports(&mut self, reports: Vec<ImportReport>) -> (diags: Vec<Diagnostic>)
        ensures
            final(self)@ == applied_all(old(self)@, reports@),
            diags@ == diagnostics_of(reports@),
    {
        let ghost orig = self@;
        let ghost full = reports@;
        let mut rs = reports;
        let mut diags: Vec<Diagnostic> = Vec::new();
        proof {
            assert(diags@ + diagnostics_of(rs@) =~= diagnostics_of(full));
        }
        while rs.len() > 0
            invariant
                applied_all(orig, full) == applied_all(self@, rs@),
                diagnostics_of(full) == diags@ + diagnostics_of(rs@),
            decreases rs@.len(),
        {
            let ghost pre = rs@;
            let ghost self_pre = self@;
            let ghost diags_pre = diags@;
            let r = rs.remove(0);
            proof {
                assert(rs@ =~= pre.drop_first());
                assert(r == pre.first());
            }
            let ImportReport { path, outcome } = r;
            match outcome {
                ImportOutcome::Missing => {
                    diags.push(Diagnostic::MissingImport { path });
                    proof {
                        assert(diags@ =~= diags_pre + seq![
                            Diagnostic::MissingImport { path: pre.first().path },
                        ]);
                        assert(diags@ + diagnostics_of(rs@) =~= diags_pre + diagnostics_of(pre));
                    }
                },
                ImportOutcome::Malformed { detail } => {
                    diags.push(Diagnostic::ImportFormatError { path, detail });
                    proof {
                        assert(diags@ =~= diags_pre + seq![
                            Diagnostic::ImportFormatError {
                                path: pre.first().path,
                                detail: pre.first().outcome->Malformed_detail,
                            },
                        ]);
                        assert(diags@ + diagnostics_of(rs@) =~= diags_pre + diagnostics_of(pre));
                    }
                },
                ImportOutcome::Parsed { fragment } => {
                    self.merge(fragment);
                    proof {
                        assert(self@ == applied(self_pre, pre.first()));
                    }
                },
            }
        }
        proof {
            assert(applied_all(self@, rs@) == self@);
            assert(diags@ + diagnostics_of(rs@) =~= diags@);
        }
        diags
    }
}

/// Law: folding an empty batch of imports is a no-op; the settings
/// stand exactly as parsed.
pub proof fn lemma_no_imports_no_change(s: SettingsV)
    ensures
        applied_all(s, Seq::<ImportReport>::empty()) == s,
{
}

/// Law: a batch in which every import file is missing changes nothing
/// and leaves exactly one missing-import diagnostic per import, each
/// naming its import's resolved path; the load as a whole still
/// succeeds.
pub proof fn lemma_missing_imports_only(s: SettingsV, rs: Seq<ImportReport>)
    requires
        forall|i: int| 0 <= i < rs.len() ==> rs[i].outcome is Missing,
    ensures
        applied_all(s, rs) == s,
        diagnostics_of(rs).len() == rs.len(),
        forall|i: int|
            0 <= i < rs.len() ==> diagnostics_of(rs)[i] == (Diagnostic::MissingImport {
                path: rs[i].path,
            }),
    decreases rs.len(),
{
    if rs.len() > 0 {
        assert(rs[0].outcome is Missing);
        assert(forall|i: int|
            0 <= i < rs.drop_first().len() ==> rs.drop_first()[i].outcome is Missing);
        lemma_missing_imports_only(s, rs.drop_first());
        assert(applied(s, rs.first()) == s);
        assert forall|i: int| 0 <= i < rs.len() implies diagnostics_of(rs)[i] == (
        Diagnostic::MissingImport { path: rs[i].path }) by {
            if i > 0 {
                assert(diagnostics_of(rs)[i] == diagnostics_of(rs.drop_first())[i - 1]);
                assert(rs.drop_first()[i - 1] == rs[i]);
            }
        }
    }
}

} // verus!
