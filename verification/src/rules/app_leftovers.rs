//! Data left behind by uninstalled desktop apps.
use crate::cleaner::{kind_category, kind_id, kind_name, kind_risk, Cleaner, CleanerKind};
use crate::model::{Category, RiskLevel};
use crate::cleaner::non_empty_target;
use crate::model::{CleanMethod, CleanTarget};
use crate::path_order::{path_less, path_lt, path_order_is_strict_weak};
use crate::paths::{file_name, file_name_spec, path_eq, path_eq_spec, path_join, path_join_spec, path_starts_with, path_starts_with_spec};
use crate::scanner::opt_str_view;
use crate::sort::Ordered;
use crate::text::{chars_eq, chars_eq_str, chars_of, lemma_chars_deep_view, push_str, slice_chars, starts_with_seq, starts_with_str, string_of};
use vstd::prelude::*;

verus! {

broadcast use vstd::string::group_string_axioms;

pub struct AppLeftoverCleaner;

impl Cleaner for AppLeftoverCleaner {
    open spec fn id_spec(&self) -> Seq<char> {
        kind_id(CleanerKind::AppLeftovers)
    }

    open spec fn display_name_spec(&self) -> Seq<char> {
        kind_name(CleanerKind::AppLeftovers)
    }

    open spec fn category_spec(&self) -> Category {
        kind_category(CleanerKind::AppLeftovers)
    }

    open spec fn risk_spec(&self) -> RiskLevel {
        kind_risk(CleanerKind::AppLeftovers)
    }

    fn id(&self) -> (r: &'static str) {
        CleanerKind::AppLeftovers.id()
    }

    fn display_name(&self) -> (r: &'static str) {
        CleanerKind::AppLeftovers.display_name()
    }

    fn category(&self) -> (r: Category) {
        CleanerKind::AppLeftovers.category()
    }

    fn risk_level(&self) -> (r: RiskLevel) {
        CleanerKind::AppLeftovers.risk_level()
    }
}


/// Bundle-id prefix of Cursor's version-independent updater caches.
pub open spec fn cursor_cache_prefix() -> Seq<char> {
    "com.todesktop.230313mzl4w4u92."@
}

/// A desktop app whose data is known: where its bundle is installed and
/// which paths below the home directory hold its data.
pub struct AppSpec {
    pub id: &'static str,
    pub display_name: &'static str,
    pub app_paths: Vec<&'static str>,
    pub data_paths: Vec<(&'static str, &'static str)>,
}

pub open spec fn app_spec_view(s: AppSpec) -> (Seq<char>, Seq<char>, Seq<Seq<char>>, Seq<(Seq<char>, Seq<char>)>) {
    (
        s.id@,
        s.display_name@,
        s.app_paths@.map_values(|p: &'static str| p@),
        s.data_paths@.map_values(|e: (&'static str, &'static str)| (e.0@, e.1@)),
    )
}

/// The known apps.
pub open spec fn registry_spec() -> Seq<(Seq<char>, Seq<char>, Seq<Seq<char>>, Seq<(Seq<char>, Seq<char>)>)> {
    seq![
        (
            "docker-desktop"@,
            "Docker Desktop"@,
            seq!["/Applications/Docker.app"@, "~/Applications/Docker.app"@],
            seq![
                ("Library/Containers/com.docker.docker"@, "Docker Desktop container data (includes Docker.raw)"@),
                ("Library/Group Containers/group.com.docker"@, "Docker Desktop group container data"@),
                ("Library/Application Support/Docker Desktop"@, "Docker Desktop application data"@),
                ("Library/Caches/com.docker.docker"@, "Docker Desktop cache"@),
                ("Library/Logs/Docker Desktop"@, "Docker Desktop logs"@),
                ("Library/Preferences/com.docker.docker.plist"@, "Docker Desktop preferences"@),
                ("Library/Saved Application State/com.electron.docker-frontend.savedState"@, "Docker Desktop saved state"@),
            ],
        ),
        (
            "visual-studio-code"@,
            "Visual Studio Code"@,
            seq!["/Applications/Visual Studio Code.app"@, "~/Applications/Visual Studio Code.app"@],
            seq![
                ("Library/Application Support/Code"@, "Visual Studio Code application data"@),
                ("Library/Caches/com.microsoft.VSCode"@, "Visual Studio Code cache"@),
                ("Library/Logs/Code"@, "Visual Studio Code logs"@),
                ("Library/Preferences/com.microsoft.VSCode.plist"@, "Visual Studio Code preferences"@),
                ("Library/Saved Application State/com.microsoft.VSCode.savedState"@, "Visual Studio Code saved state"@),
            ],
        ),
        (
            "cursor"@,
            "Cursor"@,
            seq!["/Applications/Cursor.app"@, "~/Applications/Cursor.app"@],
            seq![
                ("Library/Application Support/Cursor"@, "Cursor application data"@),
                ("Library/Caches/com.todesktop.230313mzl4w4u92"@, "Cursor cache"@),
                ("Library/Logs/Cursor"@, "Cursor logs"@),
                ("Library/Preferences/com.todesktop.230313mzl4w4u92.plist"@, "Cursor preferences"@),
                ("Library/Saved Application State/com.todesktop.230313mzl4w4u92.savedState"@, "Cursor saved state"@),
            ],
        ),
        (
            "postman"@,
            "Postman"@,
            seq!["/Applications/Postman.app"@, "~/Applications/Postman.app"@],
            seq![
                ("Library/Application Support/Postman"@, "Postman application data"@),
                ("Library/Caches/com.postmanlabs.mac"@, "Postman cache"@),
                ("Library/Logs/Postman"@, "Postman logs"@),
                ("Library/Preferences/com.postmanlabs.mac.plist"@, "Postman preferences"@),
            ],
        ),
        (
            "slack"@,
            "Slack"@,
            seq!["/Applications/Slack.app"@, "~/Applications/Slack.app"@],
            seq![
                ("Library/Application Support/Slack"@, "Slack application data"@),
                ("Library/Caches/com.tinyspeck.slackmacgap"@, "Slack cache"@),
                ("Library/Logs/Slack"@, "Slack logs"@),
                ("Library/Preferences/com.tinyspeck.slackmacgap.plist"@, "Slack preferences"@),
            ],
        ),
        (
            "discord"@,
            "Discord"@,
            seq!["/Applications/Discord.app"@, "~/Applications/Discord.app"@],
            seq![
                ("Library/Application Support/discord"@, "Discord application data"@),
                ("Library/Caches/com.hnc.Discord"@, "Discord cache"@),
                ("Library/Logs/Discord"@, "Discord logs"@),
                ("Library/Preferences/com.hnc.Discord.plist"@, "Discord preferences"@),
            ],
        ),
    ]
}

/// The registry of known apps.
pub fn specs() -> (out: Vec<AppSpec>)
    ensures
        out@.map_values(|s: AppSpec| app_spec_view(s)) == registry_spec(),
{
    let mut out: Vec<AppSpec> = Vec::new();
    out.push(AppSpec {
        id: "docker-desktop",
        display_name: "Docker Desktop",
        app_paths: vec!["/Applications/Docker.app", "~/Applications/Docker.app"],
        data_paths: vec![
            ("Library/Containers/com.docker.docker", "Docker Desktop container data (includes Docker.raw)"),
            ("Library/Group Containers/group.com.docker", "Docker Desktop group container data"),
            ("Library/Application Support/Docker Desktop", "Docker Desktop application data"),
            ("Library/Caches/com.docker.docker", "Docker Desktop cache"),
            ("Library/Logs/Docker Desktop", "Docker Desktop logs"),
            ("Library/Preferences/com.docker.docker.plist", "Docker Desktop preferences"),
            ("Library/Saved Application State/com.electron.docker-frontend.savedState", "Docker Desktop saved state"),
        ],
    });
    out.push(AppSpec {
        id: "visual-studio-code",
        display_name: "Visual Studio Code",
        app_paths: vec!["/Applications/Visual Studio Code.app", "~/Applications/Visual Studio Code.app"],
        data_paths: vec![
            ("Library/Application Support/Code", "Visual Studio Code application data"),
            ("Library/Caches/com.microsoft.VSCode", "Visual Studio Code cache"),
            ("Library/Logs/Code", "Visual Studio Code logs"),
            ("Library/Preferences/com.microsoft.VSCode.plist", "Visual Studio Code preferences"),
            ("Library/Saved Application State/com.microsoft.VSCode.savedState", "Visual Studio Code saved state"),
        ],
    });
    out.push(AppSpec {
        id: "cursor",
        display_name: "Cursor",
        app_paths: vec!["/Applications/Cursor.app", "~/Applications/Cursor.app"],
        data_paths: vec![
            ("Library/Application Support/Cursor", "Cursor application data"),
            ("Library/Caches/com.todesktop.230313mzl4w4u92", "Cursor cache"),
            ("Library/Logs/Cursor", "Cursor logs"),
            ("Library/Preferences/com.todesktop.230313mzl4w4u92.plist", "Cursor preferences"),
            ("Library/Saved Application State/com.todesktop.230313mzl4w4u92.savedState", "Cursor saved state"),
        ],
    });
    out.push(AppSpec {
        id: "postman",
        display_name: "Postman",
        app_paths: vec!["/Applications/Postman.app", "~/Applications/Postman.app"],
        data_paths: vec![
            ("Library/Application Support/Postman", "Postman application data"),
            ("Library/Caches/com.postmanlabs.mac", "Postman cache"),
            ("Library/Logs/Postman", "Postman logs"),
            ("Library/Preferences/com.postmanlabs.mac.plist", "Postman preferences"),
        ],
    });
    out.push(AppSpec {
        id: "slack",
        display_name: "Slack",
        app_paths: vec!["/Applications/Slack.app", "~/Applications/Slack.app"],
        data_paths: vec![
            ("Library/Application Support/Slack", "Slack application data"),
            ("Library/Caches/com.tinyspeck.slackmacgap", "Slack cache"),
            ("Library/Logs/Slack", "Slack logs"),
            ("Library/Preferences/com.tinyspeck.slackmacgap.plist", "Slack preferences"),
        ],
    });
    out.push(AppSpec {
        id: "discord",
        display_name: "Discord",
        app_paths: vec!["/Applications/Discord.app", "~/Applications/Discord.app"],
        data_paths: vec![
            ("Library/Application Support/discord", "Discord application data"),
            ("Library/Caches/com.hnc.Discord", "Discord cache"),
            ("Library/Logs/Discord", "Discord logs"),
            ("Library/Preferences/com.hnc.Discord.plist", "Discord preferences"),
        ],
    });
    assert(out@.map_values(|s: AppSpec| app_spec_view(s)) =~~= registry_spec());
    out
}


/// Where an app bundle path points: `~/` is the home directory when it is
/// known; other paths stand as they are.
pub open spec fn app_path_spec(path: Seq<char>, home: Option<Seq<char>>) -> Seq<char> {
    if starts_with_seq(path, "~/"@) && home is Some {
        path_join_spec(home.unwrap(), path.skip(2))
    } else {
        path
    }
}

pub fn app_path(path: &str, home: Option<&str>) -> (r: String)
    ensures
        r@ == app_path_spec(path@, opt_str_view(home)),
{
    let pc = chars_of(path);
    match home {
        Some(h) => {
            if starts_with_str(pc.as_slice(), "~/") {
                proof {
                    reveal_strlit("~/");
                }
                let rest = string_of(&slice_chars(pc.as_slice(), 2, pc.len()));
                assert(rest@ =~= path@.skip(2));
                return path_join(h, rest.as_str());
            }
        },
        None => {},
    }
    path.to_string()
}

/// Whether some entry of `acc` has path `p` (as paths compare).
pub open spec fn has_path(acc: Seq<(Seq<char>, Seq<char>)>, p: Seq<char>) -> bool {
    exists|i: int| 0 <= i < acc.len() && path_eq_spec(#[trigger] acc[i].0, p)
}

/// Appends each item whose path is not yet present.
pub open spec fn add_unique(acc: Seq<(Seq<char>, Seq<char>)>, items: Seq<(Seq<char>, Seq<char>)>) -> Seq<(Seq<char>, Seq<char>)>
    decreases items.len(),
{
    if items.len() == 0 {
        acc
    } else {
        let before = add_unique(acc, items.drop_last());
        if has_path(before, items.last().0) {
            before
        } else {
            before.push(items.last())
        }
    }
}

/// The Cursor updater caches among the entries of `~/Library/Caches`.
pub open spec fn cursor_caches(entries: Seq<Seq<char>>) -> Seq<(Seq<char>, Seq<char>)>
    decreases entries.len(),
{
    if entries.len() == 0 {
        Seq::empty()
    } else {
        let rest = cursor_caches(entries.drop_last());
        match file_name_spec(entries.last()) {
            Some(name) => if starts_with_seq(name, cursor_cache_prefix()) {
                rest.push((entries.last(), "Cursor updater cache ("@ + name + ")"@))
            } else {
                rest
            },
            None => rest,
        }
    }
}

/// The data locations of an app below `home`, without repeats; for Cursor
/// also its updater caches found among `cache_entries`.
pub open spec fn app_data_spec(id: Seq<char>, data: Seq<(Seq<char>, Seq<char>)>, home: Seq<char>, cache_entries: Seq<Seq<char>>) -> Seq<(Seq<char>, Seq<char>)> {
    let own = add_unique(
        Seq::empty(),
        data.map_values(|e: (Seq<char>, Seq<char>)| (path_join_spec(home, e.0), e.1)),
    );
    if id == "cursor"@ {
        add_unique(own, cursor_caches(cache_entries))
    } else {
        own
    }
}

fn known_path(acc: &Vec<(String, String)>, p: &str) -> (r: bool)
    ensures
        r == has_path(acc@.map_values(|e: (String, String)| (e.0@, e.1@)), p@),
{
    let ghost av = acc@.map_values(|e: (String, String)| (e.0@, e.1@));
    let mut i: usize = 0;
    while i < acc.len()
        invariant
            i <= acc.len(),
            av == acc@.map_values(|e: (String, String)| (e.0@, e.1@)),
            forall|k: int| 0 <= k < i ==> !path_eq_spec(#[trigger] av[k].0, p@),
        decreases acc.len() - i,
    {
        assert(av[i as int].0 == acc@[i as int].0@);
        if path_eq(acc[i].0.as_str(), p) {
            return true;
        }
        i = i + 1;
    }
    false
}

fn push_unique(acc: &mut Vec<(String, String)>, path: String, description: String)
    ensures
        final(acc)@.map_values(|e: (String, String)| (e.0@, e.1@)) == if has_path(
            old(acc)@.map_values(|e: (String, String)| (e.0@, e.1@)),
            path@,
        ) {
            old(acc)@.map_values(|e: (String, String)| (e.0@, e.1@))
        } else {
            old(acc)@.map_values(|e: (String, String)| (e.0@, e.1@)).push((path@, description@))
        },
{
    if !known_path(acc, path.as_str()) {
        let ghost before = acc@;
        let ghost item = (path@, description@);
        acc.push((path, description));
        assert(acc@.map_values(|e: (String, String)| (e.0@, e.1@)) =~= before.map_values(
            |e: (String, String)| (e.0@, e.1@),
        ).push(item));
    }
}

/// The data locations of `spec` below `home`; `cache_entries` are the
/// entries of `~/Library/Caches`, consulted for Cursor only.
pub fn app_data_paths(spec: &AppSpec, home: &str, cache_entries: &Vec<String>) -> (out: Vec<(String, String)>)
    ensures
        out@.map_values(|e: (String, String)| (e.0@, e.1@)) == app_data_spec(
            spec.id@,
            spec.data_paths@.map_values(|e: (&'static str, &'static str)| (e.0@, e.1@)),
            home@,
            cache_entries.deep_view(),
        ),
{
    let ghost items = spec.data_paths@.map_values(|e: (&'static str, &'static str)| (e.0@, e.1@)).map_values(
        |e: (Seq<char>, Seq<char>)| (path_join_spec(home@, e.0), e.1),
    );
    let mut out: Vec<(String, String)> = Vec::new();
    for i in 0..spec.data_paths.len()
        invariant
            items == spec.data_paths@.map_values(|e: (&'static str, &'static str)| (e.0@, e.1@)).map_values(
                |e: (Seq<char>, Seq<char>)| (path_join_spec(home@, e.0), e.1),
            ),
            out@.map_values(|e: (String, String)| (e.0@, e.1@)) =~= add_unique(
                Seq::empty(),
                items.take(i as int),
            ),
    {
        let (rel, desc) = spec.data_paths[i];
        let p = path_join(home, rel);
        assert(items[i as int] == (p@, desc@));
        assert(items.take(i + 1).drop_last() =~= items.take(i as int));
        push_unique(&mut out, p, desc.to_string());
    }
    assert(items.take(spec.data_paths.len() as int) =~= items);
    let ghost own = out@.map_values(|e: (String, String)| (e.0@, e.1@));
    let id = chars_of(spec.id);
    if chars_eq_str(id.as_slice(), "cursor") {
        let ghost cc = cursor_caches(cache_entries.deep_view());
        let mut j: usize = 0;
        while j < cache_entries.len()
            invariant
                j <= cache_entries.len(),
                out@.map_values(|e: (String, String)| (e.0@, e.1@)) =~= add_unique(
                    own,
                    cursor_caches(cache_entries.deep_view().take(j as int)),
                ),
            decreases cache_entries.len() - j,
        {
            let entry = &cache_entries[j];
            let ghost prefix = cache_entries.deep_view().take(j as int);
            assert(cache_entries.deep_view().take(j + 1).drop_last() =~= prefix);
            assert(cache_entries.deep_view()[j as int] == entry@);
            match file_name(entry.as_str()) {
                Some(name) => {
                    proof {
                        lemma_chars_deep_view(name);
                    }
                    if starts_with_str(name.as_slice(), "com.todesktop.230313mzl4w4u92.") {
                        let mut d = "Cursor updater cache (".to_string();
                        let ns = string_of(&name);
                        push_str(&mut d, ns.as_str());
                        push_str(&mut d, ")");
                        let ghost cnew = cursor_caches(cache_entries.deep_view().take(j + 1));
                        assert(cnew == cursor_caches(prefix).push((entry@, d@)));
                        assert(cnew.drop_last() =~= cursor_caches(prefix));
                        assert(cnew.last() == (entry@, d@));
                        push_unique(&mut out, entry.clone(), d);
                    } else {
                        assert(cursor_caches(cache_entries.deep_view().take(j + 1)) == cursor_caches(
                            prefix,
                        ));
                    }
                },
                None => {
                    assert(cursor_caches(cache_entries.deep_view().take(j + 1)) == cursor_caches(
                        prefix,
                    ));
                },
            }
            j = j + 1;
        }
        assert(cache_entries.deep_view().take(cache_entries.len() as int) =~= cache_entries.deep_view());
    }
    out
}

/// The target for a leftover location: none when it is missing or empty.
pub fn leftover_target(display_name: &str, path: String, description: &str, size_bytes: Option<u64>) -> (t: Option<CleanTarget>)
    ensures
        match size_bytes {
            Some(n) if n > 0 => match t {
                Some(x) => x.path == path && x.size_bytes == n && x.description@ == display_name@
                    + " leftover: "@ + description@ + " (app not installed)"@ && x.method
                    is TrashPath,
                None => false,
            },
            _ => t is None,
        },
{
    let mut d = display_name.to_string();
    push_str(&mut d, " leftover: ");
    push_str(&mut d, description);
    push_str(&mut d, " (app not installed)");
    non_empty_target(path, d, CleanMethod::TrashPath, size_bytes)
}

/// Leftover targets are listed largest first, then by path.
pub struct LeftoverOrder(pub CleanTarget);

impl Ordered for LeftoverOrder {
    open spec fn precedes(&self, other: &Self) -> bool {
        self.0.size_bytes > other.0.size_bytes || (self.0.size_bytes == other.0.size_bytes
            && path_lt(self.0.path@, other.0.path@))
    }

    fn precedes_exec(&self, other: &Self) -> (r: bool) {
        if self.0.size_bytes != other.0.size_bytes {
            self.0.size_bytes > other.0.size_bytes
        } else {
            path_less(self.0.path.as_str(), other.0.path.as_str())
        }
    }

    proof fn precedes_asymmetric(a: &Self, b: &Self) {
        path_order_is_strict_weak(a.0.path@, b.0.path@, b.0.path@);
    }

    proof fn precedes_negatively_transitive(a: &Self, b: &Self, c: &Self) {
        path_order_is_strict_weak(a.0.path@, b.0.path@, c.0.path@);
    }
}

/// Whether the app `id` is installed; `installed` says, for each entry of
/// the registry in order, whether one of its bundles exists.
pub fn is_app_installed(id: &str, installed: &Vec<bool>) -> (r: bool)
    requires
        installed@.len() == registry_spec().len(),
    ensures
        r == exists|i: int|
            0 <= i < registry_spec().len() && #[trigger] registry_spec()[i].0 == id@ && installed@[i]
                && forall|j: int| 0 <= j < i ==> registry_spec()[j].0 != id@,
{
    let all = specs();
    let idc = chars_of(id);
    let mut i: usize = 0;
    while i < all.len()
        invariant
            i <= all.len(),
            all@.map_values(|s: AppSpec| app_spec_view(s)) == registry_spec(),
            installed@.len() == registry_spec().len(),
            idc@ == id@,
            forall|j: int| 0 <= j < i ==> registry_spec()[j].0 != id@,
        decreases all.len() - i,
    {
        let sc = chars_of(all[i].id);
        assert(registry_spec()[i as int].0 == all@[i as int].id@);
        if chars_eq(sc.as_slice(), idc.as_slice()) {
            assert(registry_spec()[i as int].0 == id@);
            return installed[i];
        }
        i = i + 1;
    }
    false
}

/// The data locations of registry entry `i` below `home` (see
/// [`app_data_spec`]).
pub open spec fn data_of(i: int, home: Seq<char>, cache_entries: Seq<Seq<char>>) -> Seq<(Seq<char>, Seq<char>)> {
    app_data_spec(registry_spec()[i].0, registry_spec()[i].3, home, cache_entries)
}

/// Whether `path` lies at or below a data location of a known app whose
/// bundle is absent; `installed` says, for each registry entry in order,
/// whether one of its bundles exists.
pub open spec fn orphaned_spec(path: Seq<char>, home: Seq<char>, installed: Seq<bool>, cache_entries: Seq<Seq<char>>) -> bool {
    exists|i: int, k: int|
        0 <= i < registry_spec().len() && !installed[i] && 0 <= k < data_of(i, home, cache_entries).len()
            && path_starts_with_spec(path, #[trigger] data_of(i, home, cache_entries)[k].0)
}

/// The leftover locations of the first `n` registry entries: for each app
/// whose bundle is absent, its data locations with its display name.
pub open spec fn plan_upto(n: nat, home: Seq<char>, installed: Seq<bool>, cache_entries: Seq<Seq<char>>) -> Seq<(Seq<char>, Seq<char>, Seq<char>)>
    decreases n,
{
    if n == 0 {
        Seq::empty()
    } else {
        let i = n - 1;
        plan_upto((n - 1) as nat, home, installed, cache_entries) + if installed[i] {
            Seq::empty()
        } else {
            data_of(i, home, cache_entries).map_values(
                |e: (Seq<char>, Seq<char>)| (registry_spec()[i].1, e.0, e.1),
            )
        }
    }
}

/// Every leftover location, in registry order: `(display name, path,
/// description)` for each data location of an app whose bundle is absent.
pub open spec fn leftover_plan_spec(home: Seq<char>, installed: Seq<bool>, cache_entries: Seq<Seq<char>>) -> Seq<(Seq<char>, Seq<char>, Seq<char>)> {
    plan_upto(registry_spec().len(), home, installed, cache_entries)
}

/// The locations the app-leftovers rule reports; see
/// [`leftover_plan_spec`]. `installed` says, for each registry entry in
/// order, whether one of its bundles exists; `cache_entries` are the entries
/// of `~/Library/Caches`.
pub fn leftover_plan(home: &str, installed: &Vec<bool>, cache_entries: &Vec<String>) -> (out: Vec<(String, String, String)>)
    requires
        installed@.len() == registry_spec().len(),
    ensures
        out@.map_values(|e: (String, String, String)| (e.0@, e.1@, e.2@)) == leftover_plan_spec(
            home@,
            installed@,
            cache_entries.deep_view(),
        ),
{
    let all = specs();
    let ghost cv = cache_entries.deep_view();
    let mut out: Vec<(String, String, String)> = Vec::new();
    for i in 0..all.len()
        invariant
            all@.map_values(|s: AppSpec| app_spec_view(s)) == registry_spec(),
            installed@.len() == registry_spec().len(),
            cv == cache_entries.deep_view(),
            out@.map_values(|e: (String, String, String)| (e.0@, e.1@, e.2@)) =~= plan_upto(i as nat, home@, installed@, cv),
    {
        assert(all@.map_values(|s: AppSpec| app_spec_view(s))[i as int] == app_spec_view(all@[i as int]));
        let ghost start = out@.map_values(|e: (String, String, String)| (e.0@, e.1@, e.2@));
        if !installed[i] {
            let data = app_data_paths(&all[i], home, cache_entries);
            let ghost dv = data@.map_values(|e: (String, String)| (e.0@, e.1@));
            assert(dv == data_of(i as int, home@, cv));
            let ghost name = registry_spec()[i as int].1;
            assert(name == all[i as int].display_name@);
            for j in 0..data.len()
                invariant
                    i < all@.len(),
                    dv == data@.map_values(|e: (String, String)| (e.0@, e.1@)),
                    name == all[i as int].display_name@,
                    out@.map_values(|e: (String, String, String)| (e.0@, e.1@, e.2@)) =~= start + dv.take(j as int).map_values(
                        |e: (Seq<char>, Seq<char>)| (name, e.0, e.1),
                    ),
            {
                let ghost before = out@.map_values(|e: (String, String, String)| (e.0@, e.1@, e.2@));
                assert(dv[j as int] == (data@[j as int].0@, data@[j as int].1@));
                out.push((all[i].display_name.to_string(), data[j].0.clone(), data[j].1.clone()));
                assert(out@.map_values(|e: (String, String, String)| (e.0@, e.1@, e.2@)) =~= before.push(
                    (name, dv[j as int].0, dv[j as int].1),
                ));
                assert(dv.take(j + 1) =~= dv.take(j as int).push(dv[j as int]));
            }
            assert(dv.take(data.len() as int) =~= dv);
        } else {
            assert(start + Seq::<(Seq<char>, Seq<char>, Seq<char>)>::empty() =~= start);
        }
    }
    out
}

/// Whether `path` lies at or below a data location of a known app that is
/// not installed (see [`orphaned_spec`]); such data is reported by the
/// app-leftovers rule only.
pub fn is_orphaned_path(path: &str, home: &str, installed: &Vec<bool>, cache_entries: &Vec<String>) -> (r: bool)
    requires
        installed@.len() == registry_spec().len(),
    ensures
        r == orphaned_spec(path@, home@, installed@, cache_entries.deep_view()),
{
    let all = specs();
    let ghost cv = cache_entries.deep_view();
    let mut i: usize = 0;
    while i < all.len()
        invariant
            i <= all@.len(),
            all@.map_values(|s: AppSpec| app_spec_view(s)) == registry_spec(),
            installed@.len() == registry_spec().len(),
            cv == cache_entries.deep_view(),
            forall|i2: int, k2: int|
                0 <= i2 < i && !installed@[i2] && 0 <= k2 < data_of(i2, home@, cv).len()
                    ==> !path_starts_with_spec(path@, #[trigger] data_of(i2, home@, cv)[k2].0),
        decreases all.len() - i,
    {
        assert(all@.map_values(|s: AppSpec| app_spec_view(s))[i as int] == app_spec_view(all@[i as int]));
        if !installed[i] {
            let data = app_data_paths(&all[i], home, cache_entries);
            let ghost dv = data@.map_values(|e: (String, String)| (e.0@, e.1@));
            assert(dv == data_of(i as int, home@, cv));
            let mut k: usize = 0;
            while k < data.len()
                invariant
                    k <= data@.len(),
                    i < all@.len(),
                    all@.len() == registry_spec().len(),
                    installed@.len() == registry_spec().len(),
                    !installed@[i as int],
                    cv == cache_entries.deep_view(),
                    dv == data@.map_values(|e: (String, String)| (e.0@, e.1@)),
                    dv == data_of(i as int, home@, cv),
                    forall|k2: int| 0 <= k2 < k ==> !path_starts_with_spec(path@, #[trigger] dv[k2].0),
                decreases data.len() - k,
            {
                assert(dv[k as int].0 == data@[k as int].0@);
                if path_starts_with(path, data[k].0.as_str()) {
                    assert(path_starts_with_spec(path@, data_of(i as int, home@, cv)[k as int].0));
                    assert(0 <= k < data_of(i as int, home@, cv).len());
                    assert(orphaned_spec(path@, home@, installed@, cv));
                    return true;
                }
                k = k + 1;
            }
        }
        assert forall|i2: int, k2: int|
            0 <= i2 < i + 1 && !installed@[i2] && 0 <= k2 < data_of(i2, home@, cv).len()
                implies !path_starts_with_spec(path@, #[trigger] data_of(i2, home@, cv)[k2].0) by {
            if i2 == i {
                assert(data_of(i2, home@, cv)[k2] == data_of(i as int, home@, cv)[k2]);
            }
        }
        i = i + 1;
    }
    false
}

/// When every known app is installed, no path counts as orphaned.
pub proof fn nothing_is_orphaned_while_every_app_is_installed(
    path: Seq<char>,
    home: Seq<char>,
    installed: Seq<bool>,
    cache_entries: Seq<Seq<char>>,
)
    requires
        installed.len() == registry_spec().len(),
        forall|i: int| 0 <= i < installed.len() ==> installed[i],
    ensures
        !orphaned_spec(path, home, installed, cache_entries),
{
}

} // verus!
