//! Inventory and removal of globally installed developer tools.
//!
//! Removal always goes through the owning package manager's own uninstall
//! command; no package directory is ever deleted directly, and nothing runs
//! unless the caller asks for a real (non dry-run) removal.
use vstd::prelude::*;
use crate::history::{record_history, sanitize_spec, HistoryRecord};
use crate::sort::{
    lemma_lex_asymmetric, lemma_lex_irreflexive, lemma_lex_total, lemma_lex_transitive, lex_less,
    lex_lt, stable_sort, stable_sorted, Ordered,
};
use crate::text::{
    chars_eq_str, chars_of, find_char, is_ascii_digit, is_digit, join, join_seq,
    lemma_chars_deep_view, lines, lines_seq, push_str, rfind_char, slice_chars, string_of, trim,
    trim_seq, words, words_seq,
};

verus! {

broadcast use vstd::string::group_string_axioms;

/// The package managers whose global installs are inventoried, in display
/// order.
#[derive(Clone, Copy, Debug, PartialEq, Eq, Structural, PartialOrd, Ord)]
pub enum GlobalToolManager {
    Cargo,
    Dart,
    Npm,
    Pnpm,
    Yarn,
    Uv,
    Pipx,
    BrewFormula,
    BrewCask,
}

/// Position of a manager in the display order.
pub open spec fn manager_rank(m: GlobalToolManager) -> int {
    match m {
        GlobalToolManager::Cargo => 0,
        GlobalToolManager::Dart => 1,
        GlobalToolManager::Npm => 2,
        GlobalToolManager::Pnpm => 3,
        GlobalToolManager::Yarn => 4,
        GlobalToolManager::Uv => 5,
        GlobalToolManager::Pipx => 6,
        GlobalToolManager::BrewFormula => 7,
        GlobalToolManager::BrewCask => 8,
    }
}

pub open spec fn manager_label(m: GlobalToolManager) -> Seq<char> {
    match m {
        GlobalToolManager::Cargo => "Cargo installed"@,
        GlobalToolManager::Dart => "Dart global"@,
        GlobalToolManager::Npm => "npm global"@,
        GlobalToolManager::Pnpm => "pnpm global"@,
        GlobalToolManager::Yarn => "Yarn global"@,
        GlobalToolManager::Uv => "uv tools"@,
        GlobalToolManager::Pipx => "pipx"@,
        GlobalToolManager::BrewFormula => "Homebrew formula"@,
        GlobalToolManager::BrewCask => "Homebrew cask"@,
    }
}

pub open spec fn manager_binary(m: GlobalToolManager) -> Seq<char> {
    match m {
        GlobalToolManager::Cargo => "cargo"@,
        GlobalToolManager::Dart => "dart"@,
        GlobalToolManager::Npm => "npm"@,
        GlobalToolManager::Pnpm => "pnpm"@,
        GlobalToolManager::Yarn => "yarn"@,
        GlobalToolManager::Uv => "uv"@,
        GlobalToolManager::Pipx => "pipx"@,
        GlobalToolManager::BrewFormula | GlobalToolManager::BrewCask => "brew"@,
    }
}

/// The arguments, after the manager's binary, that uninstall `name`.
pub open spec fn uninstall_args_spec(m: GlobalToolManager, name: Seq<char>) -> Seq<Seq<char>> {
    match m {
        GlobalToolManager::Cargo => seq!["uninstall"@, name],
        GlobalToolManager::Dart => seq!["pub"@, "global"@, "deactivate"@, name],
        GlobalToolManager::Npm => seq!["uninstall"@, "--global"@, name],
        GlobalToolManager::Pnpm => seq!["remove"@, "--global"@, name],
        GlobalToolManager::Yarn => seq!["global"@, "remove"@, name],
        GlobalToolManager::Uv => seq!["tool"@, "uninstall"@, name],
        GlobalToolManager::Pipx => seq!["uninstall"@, name],
        GlobalToolManager::BrewFormula => seq!["uninstall"@, "--formula"@, name],
        GlobalToolManager::BrewCask => seq!["uninstall"@, "--cask"@, name],
    }
}

/// Appends a copy of `s` to a vector of strings.
fn push_owned(v: &mut Vec<String>, s: &str)
    ensures
        final(v).deep_view() == old(v).deep_view().push(s@),
{
    let ghost before = v.deep_view();
    v.push(s.to_string());
    assert(v.deep_view() =~= before.push(s@));
}

impl GlobalToolManager {
    pub fn rank(self) -> (r: u8)
        ensures
            r == manager_rank(self),
    {
        match self {
            GlobalToolManager::Cargo => 0,
            GlobalToolManager::Dart => 1,
            GlobalToolManager::Npm => 2,
            GlobalToolManager::Pnpm => 3,
            GlobalToolManager::Yarn => 4,
            GlobalToolManager::Uv => 5,
            GlobalToolManager::Pipx => 6,
            GlobalToolManager::BrewFormula => 7,
            GlobalToolManager::BrewCask => 8,
        }
    }

    /// The heading under which the manager's tools are listed.
    pub fn label(self) -> (r: &'static str)
        ensures
            r@ == manager_label(self),
    {
        match self {
            GlobalToolManager::Cargo => "Cargo installed",
            GlobalToolManager::Dart => "Dart global",
            GlobalToolManager::Npm => "npm global",
            GlobalToolManager::Pnpm => "pnpm global",
            GlobalToolManager::Yarn => "Yarn global",
            GlobalToolManager::Uv => "uv tools",
            GlobalToolManager::Pipx => "pipx",
            GlobalToolManager::BrewFormula => "Homebrew formula",
            GlobalToolManager::BrewCask => "Homebrew cask",
        }
    }

    /// The executable that owns this manager's installs.
    pub fn binary(self) -> (r: &'static str)
        ensures
            r@ == manager_binary(self),
    {
        match self {
            GlobalToolManager::Cargo => "cargo",
            GlobalToolManager::Dart => "dart",
            GlobalToolManager::Npm => "npm",
            GlobalToolManager::Pnpm => "pnpm",
            GlobalToolManager::Yarn => "yarn",
            GlobalToolManager::Uv => "uv",
            GlobalToolManager::Pipx => "pipx",
            GlobalToolManager::BrewFormula | GlobalToolManager::BrewCask => "brew",
        }
    }

    /// The manager's own uninstall command for `name`, without the binary.
    pub fn uninstall_arguments(self, name: &str) -> (out: Vec<String>)
        ensures
            out.deep_view() == uninstall_args_spec(self, name@),
    {
        let mut out: Vec<String> = Vec::new();
        match self {
            GlobalToolManager::Cargo => {
                push_owned(&mut out, "uninstall");
            },
            GlobalToolManager::Dart => {
                push_owned(&mut out, "pub");
                push_owned(&mut out, "global");
                push_owned(&mut out, "deactivate");
            },
            GlobalToolManager::Npm => {
                push_owned(&mut out, "uninstall");
                push_owned(&mut out, "--global");
            },
            GlobalToolManager::Pnpm => {
                push_owned(&mut out, "remove");
                push_owned(&mut out, "--global");
            },
            GlobalToolManager::Yarn => {
                push_owned(&mut out, "global");
                push_owned(&mut out, "remove");
            },
            GlobalToolManager::Uv => {
                push_owned(&mut out, "tool");
                push_owned(&mut out, "uninstall");
            },
            GlobalToolManager::Pipx => {
                push_owned(&mut out, "uninstall");
            },
            GlobalToolManager::BrewFormula => {
                push_owned(&mut out, "uninstall");
                push_owned(&mut out, "--formula");
            },
            GlobalToolManager::BrewCask => {
                push_owned(&mut out, "uninstall");
                push_owned(&mut out, "--cask");
            },
        }
        push_owned(&mut out, name);
        out
    }
}

/// One globally installed tool.
#[derive(Clone, Debug)]
pub struct GlobalTool {
    pub manager: GlobalToolManager,
    pub name: String,
    pub version: Option<String>,
    pub can_uninstall: bool,
    pub warning: Option<String>,
}

/// The mathematical value of a [`GlobalTool`].
pub struct ToolView {
    pub manager: GlobalToolManager,
    pub name: Seq<char>,
    pub version: Option<Seq<char>>,
    pub can_uninstall: bool,
    pub warning: Option<Seq<char>>,
}

pub open spec fn opt_view(o: Option<String>) -> Option<Seq<char>> {
    match o {
        Some(s) => Some(s@),
        None => None,
    }
}

impl View for GlobalTool {
    type V = ToolView;

    open spec fn view(&self) -> ToolView {
        ToolView {
            manager: self.manager,
            name: self.name@,
            version: opt_view(self.version),
            can_uninstall: self.can_uninstall,
            warning: opt_view(self.warning),
        }
    }
}

pub open spec fn npm_self_warning() -> Seq<char> {
    "npm manages itself; use a Node version manager or npm upgrade instead"@
}

/// A tool as [`GlobalTool::new`] builds it: npm itself is never uninstalled
/// through npm, and carries a warning saying why.
pub open spec fn tool_spec(m: GlobalToolManager, name: Seq<char>, version: Option<Seq<char>>) -> ToolView {
    let can_uninstall = !(m == GlobalToolManager::Npm && name == "npm"@);
    ToolView {
        manager: m,
        name,
        version,
        can_uninstall,
        warning: if can_uninstall {
            None
        } else {
            Some(npm_self_warning())
        },
    }
}

pub open spec fn tools_view(s: Seq<GlobalTool>) -> Seq<ToolView> {
    s.map_values(|t: GlobalTool| t@)
}

/// The whole command line that uninstalls a tool.
pub open spec fn command_text_spec(m: GlobalToolManager, name: Seq<char>) -> Seq<char> {
    join_seq(seq![manager_binary(m)] + uninstall_args_spec(m, name), " "@)
}

/// Removing a Homebrew cask may ask for an administrator password.
pub open spec fn admin_needed(m: GlobalToolManager) -> bool {
    m == GlobalToolManager::BrewCask
}

impl GlobalTool {
    /// Whether removing the tool may ask for an administrator password.
    pub fn requires_admin_authentication(&self) -> (r: bool)
        ensures
            r == admin_needed(self.manager),
    {
        match self.manager {
            GlobalToolManager::BrewCask => true,
            _ => false,
        }
    }

    pub fn new(manager: GlobalToolManager, name: &str, version: Option<String>) -> (t: GlobalTool)
        ensures
            t@ == tool_spec(manager, name@, opt_view(version)),
    {
        let name_chars = chars_of(name);
        let is_npm = manager == GlobalToolManager::Npm && chars_eq_str(name_chars.as_slice(), "npm");
        let can_uninstall = !is_npm;
        let warning = if can_uninstall {
            None
        } else {
            Some("npm manages itself; use a Node version manager or npm upgrade instead".to_string())
        };
        GlobalTool { manager, name: name.to_string(), version, can_uninstall, warning }
    }

    /// A copy with the same value.
    pub fn duplicate(&self) -> (t: GlobalTool)
        ensures
            t == *self,
    {
        GlobalTool {
            manager: self.manager,
            name: self.name.clone(),
            version: match &self.version {
                Some(v) => Some(v.clone()),
                None => None,
            },
            can_uninstall: self.can_uninstall,
            warning: match &self.warning {
                Some(w) => Some(w.clone()),
                None => None,
            },
        }
    }

    /// The manager-owned command that removes this tool, words separated by
    /// single spaces.
    pub fn uninstall_command(&self) -> (s: String)
        ensures
            s@ == command_text_spec(self.manager, self.name@),
    {
        let args = self.manager.uninstall_arguments(self.name.as_str());
        let mut parts: Vec<Vec<char>> = Vec::new();
        let bin = chars_of(self.manager.binary());
        proof {
            lemma_chars_deep_view(bin);
        }
        parts.push(bin);
        let mut i: usize = 0;
        while i < args.len()
            invariant
                i <= args.len(),
                args.deep_view() == uninstall_args_spec(self.manager, self.name@),
                parts.deep_view() =~= seq![manager_binary(self.manager)] + args.deep_view().take(
                    i as int,
                ),
            decreases args.len() - i,
        {
            let ghost before = parts.deep_view();
            let c = chars_of(args[i].as_str());
            proof {
                lemma_chars_deep_view(c);
            }
            assert(args.deep_view()[i as int] == c@);
            parts.push(c);
            assert(parts.deep_view() =~= before.push(c@));
            assert(args.deep_view().take(i + 1) =~= args.deep_view().take(i as int).push(
                args.deep_view()[i as int],
            ));
            i = i + 1;
        }
        assert(args.deep_view().take(args.len() as int) =~= args.deep_view());
        let sep = chars_of(" ");
        let joined = join(&parts, sep.as_slice());
        string_of(&joined)
    }
}

// ---------------------------------------------------------------------------
// Ordering of the inventory: by manager, then by name.
// ---------------------------------------------------------------------------

impl Ordered for GlobalTool {
    open spec fn precedes(&self, other: &Self) -> bool {
        manager_rank(self.manager) < manager_rank(other.manager) || (manager_rank(self.manager)
            == manager_rank(other.manager) && lex_lt(self.name@, other.name@))
    }

    fn precedes_exec(&self, other: &Self) -> (r: bool) {
        let a = self.manager.rank();
        let b = other.manager.rank();
        if a != b {
            a < b
        } else {
            let x = chars_of(self.name.as_str());
            let y = chars_of(other.name.as_str());
            lex_less(x.as_slice(), y.as_slice())
        }
    }

    proof fn precedes_asymmetric(a: &Self, b: &Self) {
        if manager_rank(a.manager) == manager_rank(b.manager) {
            lemma_lex_asymmetric(a.name@, b.name@);
        }
    }

    proof fn precedes_negatively_transitive(a: &Self, b: &Self, c: &Self) {
        let (x, y, z) = (a.name@, b.name@, c.name@);
        if manager_rank(a.manager) == manager_rank(b.manager) && manager_rank(b.manager)
            == manager_rank(c.manager) {
            lemma_lex_total(x, y);
            if lex_lt(y, x) {
                lemma_lex_transitive(y, x, z);
            }
        }
    }
}

// ---------------------------------------------------------------------------
// Parsing the managers' text listings
// ---------------------------------------------------------------------------

/// Index of the first occurrence of `c` in `s`.
pub open spec fn first_pos(s: Seq<char>, c: char) -> Option<int> {
    if exists|i: int| 0 <= i < s.len() && s[i] == c {
        Some(choose|i: int| 0 <= i < s.len() && s[i] == c && forall|j: int| 0 <= j < i ==> s[j] != c)
    } else {
        None
    }
}

/// Index of the last occurrence of `c` in `s`.
pub open spec fn last_pos(s: Seq<char>, c: char) -> Option<int> {
    if exists|i: int| 0 <= i < s.len() && s[i] == c {
        Some(
            choose|i: int|
                0 <= i < s.len() && s[i] == c && forall|j: int| i < j < s.len() ==> s[j] != c,
        )
    } else {
        None
    }
}

pub proof fn lemma_first_pos(s: Seq<char>, c: char, i: int)
    requires
        0 <= i < s.len(),
        s[i] == c,
        forall|j: int| 0 <= j < i ==> s[j] != c,
    ensures
        first_pos(s, c) == Some(i),
{
    let k = choose|k: int| 0 <= k < s.len() && s[k] == c && forall|j: int| 0 <= j < k ==> s[j] != c;
    assert(0 <= k < s.len() && s[k] == c && forall|j: int| 0 <= j < k ==> s[j] != c);
    if k < i {
        assert(s[k] != c);
    }
    if i < k {
        assert(s[i] != c);
    }
}

pub proof fn lemma_last_pos(s: Seq<char>, c: char, i: int)
    requires
        0 <= i < s.len(),
        s[i] == c,
        forall|j: int| i < j < s.len() ==> s[j] != c,
    ensures
        last_pos(s, c) == Some(i),
{
    let k = choose|k: int|
        0 <= k < s.len() && s[k] == c && forall|j: int| k < j < s.len() ==> s[j] != c;
    assert(0 <= k < s.len() && s[k] == c && forall|j: int| k < j < s.len() ==> s[j] != c);
    if k < i {
        assert(s[i] != c);
    }
    if i < k {
        assert(s[k] != c);
    }
}

/// Whether a version field starts with an ASCII digit.
pub open spec fn starts_with_digit(v: Seq<char>) -> bool {
    v.len() > 0 && is_digit(v[0])
}

/// A line of `dart pub global list`: `name version ...`; the headers
/// `No active packages.` and `active ...` are skipped.
pub open spec fn dart_line(line: Seq<char>) -> Option<ToolView> {
    let w = words_seq(line);
    if w.len() == 0 || w[0] == "No"@ || w[0] == "active"@ {
        None
    } else {
        Some(
            tool_spec(
                GlobalToolManager::Dart,
                w[0],
                if w.len() > 1 {
                    Some(w[1])
                } else {
                    None
                },
            ),
        )
    }
}

/// A package header of `cargo install --list`: `name vX.Y.Z:`; the indented
/// binary lines that follow it are skipped.
pub open spec fn cargo_line(line: Seq<char>) -> Option<ToolView> {
    let t = trim_seq(line);
    if t.len() == 0 || t.last() != ':' {
        None
    } else {
        let w = words_seq(t.drop_last());
        if w.len() < 2 {
            None
        } else {
            let token = w[1];
            let version = if token.len() > 0 && token[0] == 'v' {
                token.drop_first()
            } else {
                token
            };
            if !starts_with_digit(version) {
                None
            } else {
                Some(tool_spec(GlobalToolManager::Cargo, w[0], Some(version)))
            }
        }
    }
}

/// A line of `yarn global list --json` naming `"package@version"` between
/// the first two double quotes; the version must start with a digit.
pub open spec fn yarn_line(line: Seq<char>) -> Option<ToolView> {
    match first_pos(line, '"') {
        None => None,
        Some(q) => {
            let rest = line.skip(q + 1);
            match first_pos(rest, '"') {
                None => None,
                Some(e) => {
                    let package = rest.take(e);
                    match last_pos(package, '@') {
                        None => None,
                        Some(at) => {
                            let name = package.take(at);
                            let version = package.skip(at + 1);
                            if name.len() == 0 || !starts_with_digit(version) {
                                None
                            } else {
                                Some(tool_spec(GlobalToolManager::Yarn, name, Some(version)))
                            }
                        },
                    }
                },
            }
        },
    }
}

/// A tool line of `uv tool list`: `name vX.Y.Z`; the `- binary` lines are
/// skipped.
pub open spec fn uv_line(line: Seq<char>) -> Option<ToolView> {
    let w = words_seq(line);
    if w.len() < 2 || w[1].len() == 0 || w[1][0] != 'v' || !starts_with_digit(w[1].drop_first()) {
        None
    } else {
        Some(tool_spec(GlobalToolManager::Uv, w[0], Some(w[1].drop_first())))
    }
}

/// A line of `brew list --versions`: `name version...`; several installed
/// versions are joined with `, `.
pub open spec fn brew_line(m: GlobalToolManager, line: Seq<char>) -> Option<ToolView> {
    let w = words_seq(line);
    if w.len() == 0 {
        None
    } else {
        let versions = w.drop_first();
        Some(
            tool_spec(
                m,
                w[0],
                if versions.len() == 0 {
                    None
                } else {
                    Some(join_seq(versions, ", "@))
                },
            ),
        )
    }
}

/// The text formats of the managers' listings.
#[derive(Clone, Copy, Debug)]
pub enum ListFormat {
    Dart,
    Cargo,
    Yarn,
    Uv,
    Brew(GlobalToolManager),
}

pub open spec fn line_tool(fmt: ListFormat, line: Seq<char>) -> Option<ToolView> {
    match fmt {
        ListFormat::Dart => dart_line(line),
        ListFormat::Cargo => cargo_line(line),
        ListFormat::Yarn => yarn_line(line),
        ListFormat::Uv => uv_line(line),
        ListFormat::Brew(m) => brew_line(m, line),
    }
}

/// The tools read from `lines`, one per recognised line, in order.
pub open spec fn parsed_lines(fmt: ListFormat, lines: Seq<Seq<char>>) -> Seq<ToolView>
    decreases lines.len(),
{
    if lines.len() == 0 {
        Seq::empty()
    } else {
        let rest = parsed_lines(fmt, lines.drop_last());
        match line_tool(fmt, lines.last()) {
            Some(t) => rest.push(t),
            None => rest,
        }
    }
}

pub open spec fn listing_spec(fmt: ListFormat, output: Seq<char>) -> Seq<ToolView> {
    parsed_lines(fmt, lines_seq(output))
}

pub open spec fn opt_tool_view(t: Option<GlobalTool>) -> Option<ToolView> {
    match t {
        Some(t) => Some(t@),
        None => None,
    }
}

fn tool_from_chars(m: GlobalToolManager, name: &Vec<char>, version: Option<Vec<char>>) -> (t:
    GlobalTool)
    ensures
        t@ == tool_spec(
            m,
            name@,
            match version {
                Some(v) => Some(v@),
                None => None,
            },
        ),
{
    let n = string_of(name);
    let v = match version {
        Some(v) => Some(string_of(&v)),
        None => None,
    };
    GlobalTool::new(m, n.as_str(), v)
}

fn dart_tool(line: &[char]) -> (r: Option<GlobalTool>)
    ensures
        opt_tool_view(r) == dart_line(line@),
{
    let w = words(line);
    if w.len() == 0 {
        return None;
    }
    proof {
        lemma_chars_deep_view(w[0]);
    }
    if chars_eq_str(w[0].as_slice(), "No") || chars_eq_str(w[0].as_slice(), "active") {
        return None;
    }
    let version = if w.len() > 1 {
        proof {
            lemma_chars_deep_view(w[1]);
        }
        Some(w[1].clone())
    } else {
        None
    };
    Some(tool_from_chars(GlobalToolManager::Dart, &w[0], version))
}

fn digit_first(v: &[char]) -> (r: bool)
    ensures
        r == starts_with_digit(v@),
{
    v.len() > 0 && is_ascii_digit(v[0])
}

fn cargo_tool(line: &[char]) -> (r: Option<GlobalTool>)
    ensures
        opt_tool_view(r) == cargo_line(line@),
{
    let t = trim(line);
    if t.len() == 0 || t[t.len() - 1] != ':' {
        return None;
    }
    let body = slice_chars(t.as_slice(), 0, t.len() - 1);
    assert(body@ =~= t@.drop_last());
    let w = words(body.as_slice());
    if w.len() < 2 {
        return None;
    }
    proof {
        lemma_chars_deep_view(w[0]);
        lemma_chars_deep_view(w[1]);
    }
    let token = &w[1];
    let version = if token.len() > 0 && token[0] == 'v' {
        slice_chars(token.as_slice(), 1, token.len())
    } else {
        token.clone()
    };
    assert(token@.len() > 0 && token@[0] == 'v' ==> version@ =~= token@.drop_first());
    if !digit_first(version.as_slice()) {
        return None;
    }
    Some(tool_from_chars(GlobalToolManager::Cargo, &w[0], Some(version)))
}

fn yarn_tool(line: &[char]) -> (r: Option<GlobalTool>)
    ensures
        opt_tool_view(r) == yarn_line(line@),
{
    let found = find_char(line, '"');
    let q = match found {
        Some(q) => q,
        None => {
            return None;
        },
    };
    assert(q < line.len());
    proof {
        lemma_first_pos(line@, '"', q as int);
    }
    let rest = slice_chars(line, q + 1, line.len());
    assert(rest@ =~= line@.skip(q + 1));
    let e = match find_char(rest.as_slice(), '"') {
        Some(e) => e,
        None => {
            return None;
        },
    };
    proof {
        lemma_first_pos(rest@, '"', e as int);
    }
    let package = slice_chars(rest.as_slice(), 0, e);
    assert(package@ =~= rest@.take(e as int));
    let at = match rfind_char(package.as_slice(), '@') {
        Some(at) => at,
        None => {
            return None;
        },
    };
    proof {
        lemma_last_pos(package@, '@', at as int);
    }
    let name = slice_chars(package.as_slice(), 0, at);
    let version = slice_chars(package.as_slice(), at + 1, package.len());
    assert(name@ =~= package@.take(at as int));
    assert(version@ =~= package@.skip(at + 1));
    if name.len() == 0 || !digit_first(version.as_slice()) {
        return None;
    }
    Some(tool_from_chars(GlobalToolManager::Yarn, &name, Some(version)))
}

fn uv_tool(line: &[char]) -> (r: Option<GlobalTool>)
    ensures
        opt_tool_view(r) == uv_line(line@),
{
    let w = words(line);
    if w.len() < 2 {
        return None;
    }
    proof {
        lemma_chars_deep_view(w[0]);
        lemma_chars_deep_view(w[1]);
    }
    if w[1].len() == 0 || w[1][0] != 'v' {
        return None;
    }
    let version = slice_chars(w[1].as_slice(), 1, w[1].len());
    assert(version@ =~= w[1]@.drop_first());
    if !digit_first(version.as_slice()) {
        return None;
    }
    Some(tool_from_chars(GlobalToolManager::Uv, &w[0], Some(version)))
}

fn brew_tool(m: GlobalToolManager, line: &[char]) -> (r: Option<GlobalTool>)
    ensures
        opt_tool_view(r) == brew_line(m, line@),
{
    let w = words(line);
    if w.len() == 0 {
        return None;
    }
    proof {
        lemma_chars_deep_view(w[0]);
    }
    let mut versions: Vec<Vec<char>> = Vec::new();
    let mut i: usize = 1;
    while i < w.len()
        invariant
            1 <= i <= w.len(),
            versions.deep_view() =~= w.deep_view().subrange(1, i as int),
        decreases w.len() - i,
    {
        let ghost before = versions.deep_view();
        versions.push(w[i].clone());
        assert(versions.deep_view() =~= before.push(w.deep_view()[i as int]));
        i = i + 1;
    }
    assert(w.deep_view().subrange(1, w.len() as int) =~= w.deep_view().drop_first());
    let version = if versions.len() == 0 {
        None
    } else {
        let sep = chars_of(", ");
        Some(join(&versions, sep.as_slice()))
    };
    Some(tool_from_chars(m, &w[0], version))
}

fn parse_line(fmt: ListFormat, line: &[char]) -> (r: Option<GlobalTool>)
    ensures
        opt_tool_view(r) == line_tool(fmt, line@),
{
    match fmt {
        ListFormat::Dart => dart_tool(line),
        ListFormat::Cargo => cargo_tool(line),
        ListFormat::Yarn => yarn_tool(line),
        ListFormat::Uv => uv_tool(line),
        ListFormat::Brew(m) => brew_tool(m, line),
    }
}

/// Reads one tool from every recognised line of a manager's listing.
pub fn parse_listing(output: &str, fmt: ListFormat) -> (tools: Vec<GlobalTool>)
    ensures
        tools_view(tools@) == listing_spec(fmt, output@),
{
    let text = chars_of(output);
    let ls = lines(text.as_slice());
    let ghost all = ls.deep_view();
    let mut tools: Vec<GlobalTool> = Vec::new();
    let mut i: usize = 0;
    while i < ls.len()
        invariant
            i <= ls.len(),
            all == ls.deep_view(),
            all == lines_seq(output@),
            tools_view(tools@) =~= parsed_lines(fmt, all.take(i as int)),
        decreases ls.len() - i,
    {
        proof {
            lemma_chars_deep_view(ls[i as int]);
        }
        assert(all.take(i + 1).drop_last() =~= all.take(i as int));
        assert(all.take(i + 1).last() == ls[i as int]@);
        let ghost before = tools@;
        match parse_line(fmt, ls[i].as_slice()) {
            Some(t) => {
                tools.push(t);
                assert(tools_view(tools@) =~= tools_view(before).push(t@));
            },
            None => {},
        }
        i = i + 1;
    }
    assert(all.take(ls.len() as int) =~= all);
    tools
}

/// `dart pub global list`.
pub fn parse_dart_list(output: &str) -> (tools: Vec<GlobalTool>)
    ensures
        tools_view(tools@) == listing_spec(ListFormat::Dart, output@),
{
    parse_listing(output, ListFormat::Dart)
}

/// `cargo install --list`.
pub fn parse_cargo_list(output: &str) -> (tools: Vec<GlobalTool>)
    ensures
        tools_view(tools@) == listing_spec(ListFormat::Cargo, output@),
{
    parse_listing(output, ListFormat::Cargo)
}

/// `yarn global list --json`.
pub fn parse_yarn_list(output: &str) -> (tools: Vec<GlobalTool>)
    ensures
        tools_view(tools@) == listing_spec(ListFormat::Yarn, output@),
{
    parse_listing(output, ListFormat::Yarn)
}

/// `uv tool list`.
pub fn parse_uv_list(output: &str) -> (tools: Vec<GlobalTool>)
    ensures
        tools_view(tools@) == listing_spec(ListFormat::Uv, output@),
{
    parse_listing(output, ListFormat::Uv)
}

/// `brew list --formula --versions` or `brew list --cask --versions`.
pub fn parse_brew_list(output: &str, manager: GlobalToolManager) -> (tools: Vec<GlobalTool>)
    ensures
        tools_view(tools@) == listing_spec(ListFormat::Brew(manager), output@),
{
    parse_listing(output, ListFormat::Brew(manager))
}

// ---------------------------------------------------------------------------
// Listings that arrive as JSON (npm, pnpm, pipx)
// ---------------------------------------------------------------------------

/// A package named in a JSON listing, with its version where the listing
/// gives one as a string.
#[derive(Clone, Debug)]
pub struct PackageEntry {
    pub name: String,
    pub version: Option<String>,
}

pub open spec fn entries_spec(m: GlobalToolManager, entries: Seq<PackageEntry>) -> Seq<ToolView> {
    entries.map_values(|e: PackageEntry| tool_spec(m, e.name@, opt_view(e.version)))
}

fn copy_opt(o: &Option<String>) -> (r: Option<String>)
    ensures
        opt_view(r) == opt_view(*o),
{
    match o {
        Some(s) => Some(s.clone()),
        None => None,
    }
}

/// One tool per entry of a manager's dependency map, in the map's order.
pub fn parse_dependency_map(entries: &Vec<PackageEntry>, manager: GlobalToolManager) -> (tools: Vec<
    GlobalTool,
>)
    ensures
        tools_view(tools@) == entries_spec(manager, entries@),
{
    let mut tools: Vec<GlobalTool> = Vec::new();
    for i in 0..entries.len()
        invariant
            tools_view(tools@) =~= entries_spec(manager, entries@.take(i as int)),
    {
        let e = &entries[i];
        let t = GlobalTool::new(manager, e.name.as_str(), copy_opt(&e.version));
        let ghost before = tools@;
        tools.push(t);
        assert(tools_view(tools@) =~= tools_view(before).push(t@));
        assert(entries@.take(i + 1) =~= entries@.take(i as int).push(entries@[i as int]));
    }
    assert(entries@.take(entries.len() as int) =~= entries@);
    tools
}

/// `pipx list --json`: one tool per virtual environment, with the package
/// version from its metadata.
pub fn parse_pipx_list(entries: &Vec<PackageEntry>) -> (tools: Vec<GlobalTool>)
    ensures
        tools_view(tools@) == entries_spec(GlobalToolManager::Pipx, entries@),
{
    parse_dependency_map(entries, GlobalToolManager::Pipx)
}

// ---------------------------------------------------------------------------
// Assembling an inventory from the providers' results
// ---------------------------------------------------------------------------

/// The managers in the order in which they are asked for their inventory.
pub open spec fn provider_order() -> Seq<GlobalToolManager> {
    seq![
        GlobalToolManager::Cargo,
        GlobalToolManager::Dart,
        GlobalToolManager::Npm,
        GlobalToolManager::Pnpm,
        GlobalToolManager::Yarn,
        GlobalToolManager::Uv,
        GlobalToolManager::Pipx,
        GlobalToolManager::BrewFormula,
        GlobalToolManager::BrewCask,
    ]
}

pub fn providers() -> (out: Vec<GlobalToolManager>)
    ensures
        out@ == provider_order(),
{
    let mut out: Vec<GlobalToolManager> = Vec::new();
    out.push(GlobalToolManager::Cargo);
    out.push(GlobalToolManager::Dart);
    out.push(GlobalToolManager::Npm);
    out.push(GlobalToolManager::Pnpm);
    out.push(GlobalToolManager::Yarn);
    out.push(GlobalToolManager::Uv);
    out.push(GlobalToolManager::Pipx);
    out.push(GlobalToolManager::BrewFormula);
    out.push(GlobalToolManager::BrewCask);
    assert(out@ =~= provider_order());
    out
}

/// What one provider reported: whether its binary is installed and, if so,
/// the tools it listed or why listing failed.
pub struct ProviderReport {
    pub manager: GlobalToolManager,
    pub available: bool,
    pub found: Result<Vec<GlobalTool>, String>,
}

/// Every tool of an available provider, providers in order.
pub open spec fn gathered_tools(rs: Seq<ProviderReport>) -> Seq<GlobalTool>
    decreases rs.len(),
{
    if rs.len() == 0 {
        Seq::empty()
    } else {
        let head = if rs[0].available {
            match rs[0].found {
                Ok(v) => v@,
                Err(_) => Seq::empty(),
            }
        } else {
            Seq::empty()
        };
        head + gathered_tools(rs.drop_first())
    }
}

pub open spec fn provider_error(m: GlobalToolManager, e: Seq<char>) -> Seq<char> {
    manager_label(m) + ": "@ + e
}

/// One message per available provider that failed, providers in order.
pub open spec fn gathered_errors(rs: Seq<ProviderReport>) -> Seq<Seq<char>>
    decreases rs.len(),
{
    if rs.len() == 0 {
        Seq::empty()
    } else {
        let head = if rs[0].available {
            match rs[0].found {
                Ok(_) => Seq::empty(),
                Err(e) => seq![provider_error(rs[0].manager, e@)],
            }
        } else {
            Seq::empty()
        };
        head + gathered_errors(rs.drop_first())
    }
}

/// An inventory of global tools and the providers that could not be read.
#[derive(Clone, Debug)]
pub struct GlobalToolScan {
    pub tools: Vec<GlobalTool>,
    pub errors: Vec<String>,
}

/// Collects the providers' results: the tools sorted by manager, then by
/// name (stably), and one error line per failing provider. Providers whose
/// binary is missing contribute nothing.
pub fn scan_global_tools(reports: Vec<ProviderReport>) -> (scan: GlobalToolScan)
    ensures
        scan.tools@ == stable_sorted(gathered_tools(reports@)),
        scan.errors.deep_view() == gathered_errors(reports@),
{
    let ghost all = reports@;
    let mut reports = reports;
    let mut tools: Vec<GlobalTool> = Vec::new();
    let mut errors: Vec<String> = Vec::new();
    assert(all.skip(all.len() as int) =~= Seq::<ProviderReport>::empty());
    while reports.len() > 0
        invariant
            reports@ == all.take(reports@.len() as int),
            reports@.len() <= all.len(),
            tools@ == gathered_tools(all.skip(reports@.len() as int)),
            errors.deep_view() == gathered_errors(all.skip(reports@.len() as int)),
        decreases reports.len(),
    {
        let ghost n = reports@.len();
        let r = reports.pop().unwrap();
        proof {
            assert(r == all[n - 1]);
            assert(all.skip(n - 1).drop_first() =~= all.skip(n as int));
            assert(all.skip(n - 1)[0] == r);
            assert(reports@ =~= all.take(n - 1));
        }
        if r.available {
            match r.found {
                Ok(found) => {
                    let mut head = found;
                    let ghost h = head@;
                    head.append(&mut tools);
                    tools = head;
                    assert(tools@ =~= h + gathered_tools(all.skip(n as int)));
                },
                Err(e) => {
                    let mut msg = r.manager.label().to_string();
                    push_str(&mut msg, ": ");
                    push_str(&mut msg, e.as_str());
                    let mut head: Vec<String> = Vec::new();
                    head.push(msg);
                    let ghost before = errors.deep_view();
                    head.append(&mut errors);
                    errors = head;
                    assert(errors.deep_view() =~= seq![provider_error(r.manager, e@)] + before);
                    assert(tools@ =~= Seq::<GlobalTool>::empty() + gathered_tools(all.skip(n as int)));
                },
            }
        } else {
            assert(tools@ =~= Seq::<GlobalTool>::empty() + gathered_tools(all.skip(n as int)));
            assert(errors.deep_view() =~= Seq::<Seq<char>>::empty() + gathered_errors(all.skip(n as int)));
        }
    }
    assert(all.skip(0) =~= all);
    let tools = stable_sort(tools);
    GlobalToolScan { tools, errors }
}

// ---------------------------------------------------------------------------
// Removing a tool through its manager
// ---------------------------------------------------------------------------

/// The outcome of removing (or previewing the removal of) a global tool.
#[derive(Clone, Debug)]
pub struct GlobalToolResult {
    pub manager: GlobalToolManager,
    pub name: String,
    pub dry_run: bool,
    pub executed: bool,
    pub success: bool,
    pub message: String,
}

/// What to do for a removal request that is allowed.
pub enum UninstallPlan {
    /// Nothing runs; the result says what would have run.
    Preview(GlobalToolResult),
    /// Run `program` with `arguments`, then report through
    /// [`finish_global_uninstall`].
    Run { program: String, arguments: Vec<String>, command_text: String },
}

/// Why a tool is refused.
pub open spec fn refusal_message(t: ToolView) -> Seq<char> {
    t.name + " cannot be uninstalled by cleanrs: "@ + match t.warning {
        Some(w) => w,
        None => "protected global tool"@,
    }
}

/// Decides a removal request: a protected tool is refused; a dry run
/// previews the manager's command; otherwise that command is to be run.
pub fn plan_global_uninstall(tool: &GlobalTool, dry_run: bool) -> (r: Result<UninstallPlan, String>)
    ensures
        r is Err <==> !tool.can_uninstall,
        r matches Err(e) ==> e@ == refusal_message(tool@),
        r matches Ok(p) ==> (p is Preview <==> dry_run),
        r matches Ok(UninstallPlan::Preview(res)) ==> {
            &&& res.manager == tool.manager
            &&& res.name@ == tool.name@
            &&& res.dry_run
            &&& !res.executed
            &&& res.success
            &&& res.message@ == "dry-run: would run "@ + command_text_spec(tool.manager, tool.name@)
        },
        r matches Ok(UninstallPlan::Run { program, arguments, command_text }) ==> {
            &&& program@ == manager_binary(tool.manager)
            &&& arguments.deep_view() == uninstall_args_spec(tool.manager, tool.name@)
            &&& command_text@ == command_text_spec(tool.manager, tool.name@)
        },
{
    if !tool.can_uninstall {
        let mut msg = tool.name.clone();
        push_str(&mut msg, " cannot be uninstalled by cleanrs: ");
        match &tool.warning {
            Some(w) => push_str(&mut msg, w.as_str()),
            None => push_str(&mut msg, "protected global tool"),
        }
        return Err(msg);
    }
    let arguments = tool.manager.uninstall_arguments(tool.name.as_str());
    let command_text = tool.uninstall_command();
    if dry_run {
        let mut message = "dry-run: would run ".to_string();
        push_str(&mut message, command_text.as_str());
        return Ok(
            UninstallPlan::Preview(
                GlobalToolResult {
                    manager: tool.manager,
                    name: tool.name.clone(),
                    dry_run: true,
                    executed: false,
                    success: true,
                    message,
                },
            ),
        );
    }
    Ok(UninstallPlan::Run { program: tool.manager.binary().to_string(), arguments, command_text })
}

/// How a manager's uninstall command ended.
pub enum CommandOutcome {
    /// The binary could not be started.
    StartFailed,
    /// The command exited; `status` is its exit status as the platform
    /// prints it, `stderr` what it wrote to standard error.
    Exited { success: bool, status: String, stderr: String },
}

/// `: detail` after an error line, or nothing when the detail is blank.
pub open spec fn detail_suffix(raw: Seq<char>) -> Seq<char> {
    if trim_seq(raw).len() == 0 {
        Seq::empty()
    } else {
        ": "@ + trim_seq(raw)
    }
}

fn append_detail(msg: &mut String, raw: &str)
    ensures
        final(msg)@ == old(msg)@ + detail_suffix(raw@),
{
    let chars = chars_of(raw);
    let t = trim(chars.as_slice());
    if t.len() > 0 {
        push_str(msg, ": ");
        let ts = string_of(&t);
        push_str(msg, ts.as_str());
    } else {
        assert(old(msg)@ + detail_suffix(raw@) =~= old(msg)@);
    }
}

/// Reports a real removal once the manager's command has ended: failure to
/// start, or a failing exit status, is an error; otherwise the tool was
/// removed.
fn uninstall_result(tool: &GlobalTool, outcome: CommandOutcome) -> (r: Result<
    GlobalToolResult,
    String,
>)
    ensures
        match outcome {
            CommandOutcome::StartFailed => r matches Err(e) && e@ == "failed to start "@
                + manager_binary(tool.manager),
            CommandOutcome::Exited { success, status, stderr } => if success {
                r matches Ok(res) && res.manager == tool.manager && res.name@ == tool.name@
                    && !res.dry_run && res.executed && res.success && res.message@ == "executed: "@
                    + command_text_spec(tool.manager, tool.name@)
            } else {
                r matches Err(e) && e@ == command_text_spec(tool.manager, tool.name@)
                    + " exited with status "@ + status@ + detail_suffix(stderr@)
            },
        },
{
    let command_text = tool.uninstall_command();
    match outcome {
        CommandOutcome::StartFailed => {
            let mut msg = "failed to start ".to_string();
            push_str(&mut msg, tool.manager.binary());
            Err(msg)
        },
        CommandOutcome::Exited { success, status, stderr } => {
            if success {
                let mut message = "executed: ".to_string();
                push_str(&mut message, command_text.as_str());
                Ok(
                    GlobalToolResult {
                        manager: tool.manager,
                        name: tool.name.clone(),
                        dry_run: false,
                        executed: true,
                        success: true,
                        message,
                    },
                )
            } else {
                let mut msg = command_text;
                push_str(&mut msg, " exited with status ");
                push_str(&mut msg, status.as_str());
                append_detail(&mut msg, stderr.as_str());
                Err(msg)
            }
        },
    }
}

/// What a real removal came to, and the history entry that records it.
pub struct GlobalOutcome {
    pub result: Result<GlobalToolResult, String>,
    pub history: HistoryRecord,
}

/// The history entry of a real removal: `uninstall` by the tool's manager on
/// the tool, `success` with the result's message or `failed` with the error.
pub open spec fn uninstall_entry_spec(
    tool: ToolView,
    result: Result<GlobalToolResult, String>,
    h: HistoryRecord,
) -> bool {
    &&& h.operation@ == sanitize_spec("uninstall"@)
    &&& h.actor@ == sanitize_spec(manager_label(tool.manager))
    &&& h.target@ == sanitize_spec(tool.name)
    &&& match result {
        Ok(res) => h.status@ == sanitize_spec("success"@) && h.detail@ == sanitize_spec(res.message@),
        Err(e) => h.status@ == sanitize_spec("failed"@) && h.detail@ == sanitize_spec(e@),
    }
}

/// Reports a real removal once the manager's command has ended: failure to
/// start, or a failing exit status, is an error; otherwise the tool was
/// removed. Either way the removal gets one history entry.
pub fn finish_global_uninstall(tool: &GlobalTool, outcome: CommandOutcome) -> (o: GlobalOutcome)
    ensures
        match outcome {
            CommandOutcome::StartFailed => o.result matches Err(e) && e@ == "failed to start "@
                + manager_binary(tool.manager),
            CommandOutcome::Exited { success, status, stderr } => if success {
                o.result matches Ok(res) && res.manager == tool.manager && res.name@ == tool.name@
                    && !res.dry_run && res.executed && res.success && res.message@ == "executed: "@
                    + command_text_spec(tool.manager, tool.name@)
            } else {
                o.result matches Err(e) && e@ == command_text_spec(tool.manager, tool.name@)
                    + " exited with status "@ + status@ + detail_suffix(stderr@)
            },
        },
        uninstall_entry_spec(tool@, o.result, o.history),
{
    let result = uninstall_result(tool, outcome);
    let history = match &result {
        Ok(res) => record_history(
            "uninstall",
            tool.manager.label(),
            tool.name.as_str(),
            "success",
            res.message.as_str(),
        ),
        Err(e) => record_history("uninstall", tool.manager.label(), tool.name.as_str(), "failed", e.as_str()),
    };
    GlobalOutcome { result, history }
}

/// A line of `dart pub global list` gives a tool exactly when its first word
/// is not one of the listing's headers (`No active packages.`, `active ...`):
/// the tool named by that word, with the second word as its version.
pub proof fn dart_lines_name_their_first_word(line: Seq<char>)
    ensures
        words_seq(line).len() == 0 ==> line_tool(ListFormat::Dart, line) is None,
        words_seq(line).len() > 0 && (words_seq(line)[0] == "No"@ || words_seq(line)[0] == "active"@)
            ==> line_tool(ListFormat::Dart, line) is None,
        words_seq(line).len() > 0 && words_seq(line)[0] != "No"@ && words_seq(line)[0] != "active"@
            ==> (line_tool(ListFormat::Dart, line) matches Some(t) && t.manager == GlobalToolManager::Dart
            && t.name == words_seq(line)[0] && t.version == (if words_seq(line).len() > 1 {
                Some(words_seq(line)[1])
            } else {
                None
            })),
{
}

/// No tool read from a Dart listing is named after a header word: each is a
/// Dart tool named by the first word of one of the listing's lines, and that
/// word is neither `No` nor `active`.
pub proof fn dart_headers_are_never_tools(output: Seq<char>)
    ensures
        forall|i: int|
            0 <= i < listing_spec(ListFormat::Dart, output).len() ==> {
                let t = #[trigger] listing_spec(ListFormat::Dart, output)[i];
                &&& t.manager == GlobalToolManager::Dart
                &&& t.name != "No"@
                &&& t.name != "active"@
                &&& exists|k: int|
                    0 <= k < lines_seq(output).len() && words_seq(#[trigger] lines_seq(output)[k]).len() > 0
                        && words_seq(lines_seq(output)[k])[0] == t.name
            },
{
    lemma_dart_tools(lines_seq(output));
}

proof fn lemma_dart_tools(lines: Seq<Seq<char>>)
    ensures
        forall|i: int|
            0 <= i < parsed_lines(ListFormat::Dart, lines).len() ==> {
                let t = #[trigger] parsed_lines(ListFormat::Dart, lines)[i];
                &&& t.manager == GlobalToolManager::Dart
                &&& t.name != "No"@
                &&& t.name != "active"@
                &&& exists|k: int|
                    0 <= k < lines.len() && words_seq(#[trigger] lines[k]).len() > 0 && words_seq(lines[k])[0]
                        == t.name
            },
    decreases lines.len(),
{
    if lines.len() > 0 {
        let init = lines.drop_last();
        lemma_dart_tools(init);
        let rest = parsed_lines(ListFormat::Dart, init);
        let all = parsed_lines(ListFormat::Dart, lines);
        dart_lines_name_their_first_word(lines.last());
        assert forall|i: int| 0 <= i < all.len() implies {
            let t = #[trigger] all[i];
            &&& t.manager == GlobalToolManager::Dart
            &&& t.name != "No"@
            &&& t.name != "active"@
            &&& exists|k: int|
                0 <= k < lines.len() && words_seq(#[trigger] lines[k]).len() > 0 && words_seq(lines[k])[0]
                    == t.name
        } by {
            if i < rest.len() {
                assert(all[i] == rest[i]);
                let t = rest[i];
                let k = choose|k: int|
                    0 <= k < init.len() && words_seq(#[trigger] init[k]).len() > 0 && words_seq(init[k])[0]
                        == t.name;
                assert(lines[k] == init[k]);
            } else {
                assert(lines[lines.len() - 1] == lines.last());
            }
        }
    }
}

} // verus!
