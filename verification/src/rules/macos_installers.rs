//! Old macOS installer applications.
use crate::cleaner::{kind_category, kind_id, kind_name, kind_risk, Cleaner, CleanerKind};
use crate::model::{Category, RiskLevel};
use crate::cleaner::non_empty_target;
use crate::model::{CleanMethod, CleanTarget};
use crate::paths::{extension, extension_spec, file_name, file_name_spec, path_join, path_join_spec};
use crate::scanner::opt_str_view;
use crate::text::{chars_eq_str, lemma_chars_deep_view, push_str, starts_with_seq, starts_with_str};
use vstd::prelude::*;

verus! {

broadcast use vstd::string::group_string_axioms;

pub struct MacosInstallerCleaner;

impl Cleaner for MacosInstallerCleaner {
    open spec fn id_spec(&self) -> Seq<char> {
        kind_id(CleanerKind::MacosInstallers)
    }

    open spec fn display_name_spec(&self) -> Seq<char> {
        kind_name(CleanerKind::MacosInstallers)
    }

    open spec fn category_spec(&self) -> Category {
        kind_category(CleanerKind::MacosInstallers)
    }

    open spec fn risk_spec(&self) -> RiskLevel {
        kind_risk(CleanerKind::MacosInstallers)
    }

    fn id(&self) -> (r: &'static str) {
        CleanerKind::MacosInstallers.id()
    }

    fn display_name(&self) -> (r: &'static str) {
        CleanerKind::MacosInstallers.display_name()
    }

    fn category(&self) -> (r: Category) {
        CleanerKind::MacosInstallers.category()
    }

    fn risk_level(&self) -> (r: RiskLevel) {
        CleanerKind::MacosInstallers.risk_level()
    }
}


/// A macOS installer application: a folder named `Install macOS ….app`.
pub open spec fn is_macos_installer_spec(path: Seq<char>, is_dir: bool) -> bool {
    is_dir && match file_name_spec(path) {
        Some(n) => starts_with_seq(n, "Install macOS "@),
        None => false,
    } && extension_spec(path) == Some("app"@)
}

pub fn is_macos_installer(path: &str, is_dir: bool) -> (r: bool)
    ensures
        r == is_macos_installer_spec(path@, is_dir),
{
    if !is_dir {
        return false;
    }
    let named = match file_name(path) {
        Some(n) => {
            proof {
                lemma_chars_deep_view(n);
            }
            starts_with_str(n.as_slice(), "Install macOS ")
        },
        None => false,
    };
    if !named {
        return false;
    }
    match extension(path) {
        Some(e) => {
            proof {
                lemma_chars_deep_view(e);
            }
            chars_eq_str(e.as_slice(), "app")
        },
        None => false,
    }
}

/// Where installers are looked for: `/Applications`, then the user's
/// Applications, Downloads, Desktop and Documents folders.
pub open spec fn installer_roots_spec(home: Option<Seq<char>>) -> Seq<Seq<char>> {
    match home {
        Some(h) => seq![
            "/Applications"@,
            path_join_spec(h, "Applications"@),
            path_join_spec(h, "Downloads"@),
            path_join_spec(h, "Desktop"@),
            path_join_spec(h, "Documents"@),
        ],
        None => seq!["/Applications"@],
    }
}

impl MacosInstallerCleaner {
    /// Where installers are looked for: `/Applications`, then the user's Applications, Downloads, Desktop and Documents folders.
    pub fn installer_roots(home: Option<&str>) -> (out: Vec<String>)
        ensures
            out.deep_view() == installer_roots_spec(opt_str_view(home)),
    {
        let mut out: Vec<String> = Vec::new();
        out.push("/Applications".to_string());
        match home {
            Some(h) => {
                out.push(path_join(h, "Applications"));
                out.push(path_join(h, "Downloads"));
                out.push(path_join(h, "Desktop"));
                out.push(path_join(h, "Documents"));
            },
            None => {},
        }
        assert(out.deep_view() =~= installer_roots_spec(opt_str_view(home)));
        out
    }
}

impl MacosInstallerCleaner {
    /// The target of an installer found in one of the roots; none when empty.
    pub fn installer_target(path: String, size_bytes: u64) -> (t: Option<CleanTarget>)
        ensures
            size_bytes == 0 ==> t is None,
            size_bytes > 0 ==> match t {
                Some(x) => x.path == path && x.size_bytes == size_bytes && x.description@ == "old macOS installer: "@
                    + path@ && x.method is TrashPath,
                None => false,
            },
    {
        let mut d = "old macOS installer: ".to_string();
        push_str(&mut d, path.as_str());
        non_empty_target(path, d, CleanMethod::TrashPath, Some(size_bytes))
    }
}

} // verus!
