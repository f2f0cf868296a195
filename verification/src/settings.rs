//! The typed settings model and the merge engine.
//!
//! `Settings` is the root configuration; `ImportedSettings` is a
//! fragment contributed by an import, which cannot redefine the
//! dotfiles root or the signing identity. `merge` folds a fragment
//! into the root with a fixed per-field policy: list fields append in
//! order, map fields take a key-wise union in which the fragment wins
//! on collision.

use crate::strmap::StrMap;
use vstd::prelude::*;

verus! {

/// A managed symlink entry. Its meaning belongs to the symlink engine;
/// this crate only carries and merges these values.
#[derive(Debug, Clone, PartialEq)]
pub struct Dot {
    /// Path of the source file, relative to the dotfiles directory.
    pub source: String,
    /// Path of the symlink to maintain.
    pub target: String,
}

/// A per-profile override of a managed symlink entry, also opaque to
/// this crate.
#[derive(Debug, Clone, PartialEq)]
pub struct DotOverride {
    /// Replacement source path, if any.
    pub source: Option<String>,
    /// Replacement target path, if any.
    pub target: Option<String>,
}

/// One entry of the root `import` list: a path to a fragment file,
/// anchored to the dotfiles root when relative.
#[derive(Debug, Clone, PartialEq)]
pub struct ImportPath {
    /// The fragment file's path.
    pub path: String,
}

/// The default profile: dot entries, hooks and template variables that
/// are always active.
#[derive(Debug)]
pub struct ActiveProfile {
    /// The symlinks to maintain, by logical name.
    pub dots: StrMap<Dot>,
    /// Commands run before linking, in order.
    pub prehooks: Vec<String>,
    /// Commands run after linking, in order.
    pub posthooks: Vec<String>,
    /// Paths of variable-definition files, in order.
    pub vars: Vec<String>,
}

/// A named profile, an opt-in override layer of the active profile.
#[derive(Debug, Clone)]
pub struct Profile {
    /// Overrides of managed symlink entries, by logical name.
    pub dots: StrMap<DotOverride>,
    /// Names of further profiles this profile activates.
    pub extra_profiles: Vec<String>,
    /// Commands run before linking, in order.
    pub prehooks: Vec<String>,
    /// Commands run after linking, in order.
    pub posthooks: Vec<String>,
    /// Paths of variable-definition files, in order.
    pub vars: Vec<String>,
}

/// The root configuration.
#[derive(Debug)]
pub struct Settings {
    /// The dotfiles directory, absolute or relative to the home
    /// directory.
    pub dotfiles_dir: String,
    /// Optional signing identity, opaque to this crate.
    pub gpg_user_id: Option<String>,
    /// The always-active profile.
    pub settings: ActiveProfile,
    /// The named profiles, by name.
    pub profiles: StrMap<Profile>,
    /// Fragment files to merge into this configuration.
    pub import: Vec<ImportPath>,
}

/// An imported fragment: the root configuration minus `dotfiles_dir`
/// and `gpg_user_id`.
#[derive(Debug)]
pub struct ImportedSettings {
    /// The fragment's contribution to the active profile.
    pub settings: ActiveProfile,
    /// The fragment's named profiles, by name.
    pub profiles: StrMap<Profile>,
    /// Further fragment files; they are recorded, not resolved.
    pub import: Vec<ImportPath>,
}

/// Abstract value of an `ActiveProfile`.
#[verifier::ext_equal]
pub struct ActiveProfileV {
    /// The dot entries, by the key's characters.
    pub dots: Map<Seq<char>, Dot>,
    /// The pre-link hooks, in order.
    pub prehooks: Seq<String>,
    /// The post-link hooks, in order.
    pub posthooks: Seq<String>,
    /// The variable files, in order.
    pub vars: Seq<String>,
}

/// Abstract value of a `Settings`.
#[verifier::ext_equal]
pub struct SettingsV {
    /// The dotfiles directory's characters.
    pub dotfiles_dir: Seq<char>,
    /// The signing identity, if any.
    pub gpg_user_id: Option<String>,
    /// The active profile.
    pub settings: ActiveProfileV,
    /// The named profiles, by the name's characters.
    pub profiles: Map<Seq<char>, Profile>,
    /// The import list, in order.
    pub import: Seq<ImportPath>,
}

/// Abstract value of an `ImportedSettings`.
#[verifier::ext_equal]
pub struct ImportedSettingsV {
    /// The active-profile contribution.
    pub settings: ActiveProfileV,
    /// The named profiles, by the name's characters.
    pub profiles: Map<Seq<char>, Profile>,
    /// The recorded import list, in order.
    pub import: Seq<ImportPath>,
}

impl View for ActiveProfile {
    type V = ActiveProfileV;

    open spec fn view(&self) -> ActiveProfileV {
        ActiveProfileV {
            dots: self.dots@,
            prehooks: self.prehooks@,
            posthooks: self.posthooks@,
            vars: self.vars@,
        }
    }
}

impl View for Settings {
    type V = SettingsV;

    open spec fn view(&self) -> SettingsV {
        SettingsV {
            dotfiles_dir: self.dotfiles_dir@,
            gpg_user_id: self.gpg_user_id,
            settings: self.settings@,
            profiles: self.profiles@,
            import: self.import@,
        }
    }
}

impl View for ImportedSettings {
    type V = ImportedSettingsV;

    open spec fn view(&self) -> ImportedSettingsV {
        ImportedSettingsV {
            settings: self.settings@,
            profiles: self.profiles@,
            import: self.import@,
        }
    }
}

impl Default for ActiveProfile {
    /// The empty profile: no dots, no hooks, no variable files.
    fn default() -> (r: Self)
        ensures
            r@.dots == Map::<Seq<char>, Dot>::empty(),
            r@.prehooks == Seq::<String>::empty(),
            r@.posthooks == Seq::<String>::empty(),
            r@.vars == Seq::<String>::empty(),
    {
        ActiveProfile { dots: StrMap::new(), prehooks: Vec::new(), posthooks: Vec::new(), vars: Vec::new() }
    }
}

/// The merge policy, on abstract values: list fields of the fragment
/// are appended after the root's, map fields are united key-wise with
/// the fragment winning on collision, and `dotfiles_dir` and
/// `gpg_user_id` are never touched.
pub open spec fn merged(s: SettingsV, f: ImportedSettingsV) -> SettingsV {
    SettingsV {
        dotfiles_dir: s.dotfiles_dir,
        gpg_user_id: s.gpg_user_id,
        settings: ActiveProfileV {
            dots: s.settings.dots.union_prefer_right(f.settings.dots),
            prehooks: s.settings.prehooks + f.settings.prehooks,
            posthooks: s.settings.posthooks + f.settings.posthooks,
            vars: s.settings.vars + f.settings.vars,
        },
        profiles: s.profiles.union_prefer_right(f.profiles),
        import: s.import + f.import,
    }
}

impl Settings {
    /// Fold an imported fragment into these settings.
    pub fn merge(&mut self, sub_settings: ImportedSettings)
        ensures
            final(self)@ == merged(old(self)@, sub_settings@),
    {
        let mut sub = sub_settings;
        self.settings.prehooks.append(&mut sub.settings.prehooks);
        self.settings.posthooks.append(&mut sub.settings.posthooks);
        self.settings.vars.append(&mut sub.settings.vars);
        self.import.append(&mut sub.import);
        self.settings.dots.extend(sub.settings.dots);
        self.profiles.extend(sub.profiles);
        proof {
            assert(self@ =~~= merged(old(self)@, sub_settings@));
        }
    }
}

/// Law: on every key that two fragments both define, the most recently
/// merged fragment's entry is the one the merged settings hold; merging
/// in the other order holds the other entry.
pub proof fn lemma_merge_latest_wins(
    s: SettingsV,
    a: ImportedSettingsV,
    b: ImportedSettingsV,
    k: Seq<char>,
)
    requires
        a.settings.dots.contains_key(k),
        b.settings.dots.contains_key(k),
    ensures
        merged(merged(s, a), b).settings.dots[k] == b.settings.dots[k],
        merged(merged(s, b), a).settings.dots[k] == a.settings.dots[k],
{
}

/// Law: merging the same fragment twice doubles the length of every
/// list field and leaves the map fields exactly as the first merge
/// left them.
pub proof fn lemma_merge_twice(s: SettingsV, f: ImportedSettingsV)
    ensures
        merged(merged(s, f), f).settings.prehooks.len() == s.settings.prehooks.len() + 2 * f.settings.prehooks.len(),
        merged(merged(s, f), f).settings.posthooks.len() == s.settings.posthooks.len() + 2 * f.settings.posthooks.len(),
        merged(merged(s, f), f).settings.vars.len() == s.settings.vars.len() + 2 * f.settings.vars.len(),
        merged(merged(s, f), f).import.len() == s.import.len() + 2 * f.import.len(),
        merged(merged(s, f), f).settings.dots == merged(s, f).settings.dots,
        merged(merged(s, f), f).profiles == merged(s, f).profiles,
{
    assert(s.settings.dots.union_prefer_right(f.settings.dots).union_prefer_right(f.settings.dots)
        =~= s.settings.dots.union_prefer_right(f.settings.dots));
    assert(s.profiles.union_prefer_right(f.profiles).union_prefer_right(f.profiles)
        =~= s.profiles.union_prefer_right(f.profiles));
}

} // verus!
