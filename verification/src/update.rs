//! Release-version handling for the self-upgrade flow.
//!
//! Fetching the release metadata and the installer script, and running the
//! installer, happen in the application; this module decides what those
//! results mean.
use crate::paths::{has_component, has_component_spec};
use crate::text::{
    all_digits, chars_of, contains_str, contains_seq, lemma_chars_deep_view, lines, lines_seq,
    parse_u64, parse_u64_spec, push_char, push_str, split_by, split_seq, starts_with_seq, string_of,
    trim, trim_seq, trim_start_char, trim_start_char_seq, words, words_seq, is_ascii_hexdigit,
    is_hex_digit, Separator, lemma_split_nonempty,
};
use vstd::prelude::*;

verus! {

broadcast use vstd::string::group_string_axioms;

/// Number of times the installer CDN is polled before giving up.
pub const INSTALLER_READY_ATTEMPTS: usize = 6;

/// The Homebrew formula that installs this tool.
pub const BREW_FORMULA: &'static str = "ho-doan/my-cleaner/cleanrs";

/// A newer release that is ready to be installed.
#[derive(Clone, Debug, Eq, PartialEq)]
pub struct UpdateInfo {
    pub current_version: String,
    pub latest_version: String,
    pub release_url: String,
}

impl UpdateInfo {
    /// An identical copy.
    pub fn duplicate(&self) -> (r: UpdateInfo)
        ensures
            r == *self,
    {
        UpdateInfo {
            current_version: self.current_version.clone(),
            latest_version: self.latest_version.clone(),
            release_url: self.release_url.clone(),
        }
    }
}

// ---------------------------------------------------------------------------
// Version strings
// ---------------------------------------------------------------------------

/// A version tag with surrounding whitespace and one leading `v` removed.
pub open spec fn version_body(s: Seq<char>) -> Seq<char> {
    let t = trim_seq(s);
    if t.len() > 0 && t[0] == 'v' {
        t.drop_first()
    } else {
        t
    }
}

/// Every dot-separated field of `body` is a valid `u64`.
pub open spec fn numeric_fields(body: Seq<char>) -> bool {
    let parts = split_seq(body, Separator::Char('.'));
    forall|i: int| 0 <= i < parts.len() ==> (#[trigger] parse_u64_spec(parts[i])) is Some
}

/// The normalized form of a release version: the body of the tag when every
/// dot-separated field is a number, and nothing otherwise.
pub open spec fn normalize_version_spec(s: Seq<char>) -> Option<Seq<char>> {
    if numeric_fields(version_body(s)) {
        Some(version_body(s))
    } else {
        None
    }
}

fn version_body_of(value: &str) -> (out: Vec<char>)
    ensures
        out@ == version_body(value@),
{
    let chars = chars_of(value);
    let t = trim(chars.as_slice());
    if t.len() > 0 && t[0] == 'v' {
        let mut out: Vec<char> = Vec::new();
        let mut i: usize = 1;
        while i < t.len()
            invariant
                1 <= i <= t@.len(),
                out@ == t@.subrange(1, i as int),
            decreases t.len() - i,
        {
            out.push(t[i]);
            assert(t@.subrange(1, i + 1) =~= t@.subrange(1, i as int).push(t@[i as int]));
            i = i + 1;
        }
        assert(t@.subrange(1, t@.len() as int) =~= t@.drop_first());
        out
    } else {
        t
    }
}

fn all_fields_numeric(body: &[char]) -> (r: bool)
    ensures
        r == numeric_fields(body@),
{
    let parts = split_by(body, Separator::Char('.'));
    let mut i: usize = 0;
    while i < parts.len()
        invariant
            i <= parts.len(),
            parts.deep_view() =~= split_seq(body@, Separator::Char('.')),
            forall|j: int| 0 <= j < i ==> (#[trigger] parse_u64_spec(parts.deep_view()[j])) is Some,
        decreases parts.len() - i,
    {
        proof {
            lemma_chars_deep_view(parts[i as int]);
        }
        if parse_u64(parts[i].as_slice()).is_none() {
            assert(parse_u64_spec(parts.deep_view()[i as int]) is None);
            return false;
        }
        i = i + 1;
    }
    true
}

/// Normalizes a release tag such as `v0.1.3` to `0.1.3`; a tag with a field
/// that is not a number, such as `latest`, has no normal form.
pub fn normalize_version(value: &str) -> (r: Option<String>)
    ensures
        r.deep_view() == normalize_version_spec(value@),
{
    let body = version_body_of(value);
    if all_fields_numeric(body.as_slice()) {
        Some(string_of(&body))
    } else {
        None
    }
}

/// The numeric fields of a version; a field that is not a number counts as 0.
pub open spec fn version_numbers(s: Seq<char>) -> Seq<u64> {
    split_seq(s, Separator::Char('.')).map_values(
        |p: Seq<char>|
            match parse_u64_spec(p) {
                Some(v) => v,
                None => 0u64,
            },
    )
}

/// Field `i` of a version, with missing trailing fields read as 0.
pub open spec fn field_at(ns: Seq<u64>, i: int) -> u64 {
    if 0 <= i < ns.len() {
        ns[i]
    } else {
        0
    }
}

/// The order of two versions from field `i` on: -1, 0 or 1.
pub open spec fn version_order_from(a: Seq<u64>, b: Seq<u64>, i: int) -> int
    decreases a.len() + b.len() - i,
{
    if i < 0 || (i >= a.len() && i >= b.len()) {
        0
    } else if field_at(a, i) < field_at(b, i) {
        -1
    } else if field_at(a, i) > field_at(b, i) {
        1
    } else {
        version_order_from(a, b, i + 1)
    }
}

/// Numeric, field-by-field order of two version strings.
pub open spec fn version_order(a: Seq<char>, b: Seq<char>) -> int {
    version_order_from(version_numbers(a), version_numbers(b), 0)
}

fn version_numbers_of(s: &str) -> (out: Vec<u64>)
    ensures
        out@ =~= version_numbers(s@),
{
    let chars = chars_of(s);
    let parts = split_by(chars.as_slice(), Separator::Char('.'));
    let mut out: Vec<u64> = Vec::new();
    let mut i: usize = 0;
    while i < parts.len()
        invariant
            i <= parts.len(),
            parts.deep_view() =~= split_seq(s@, Separator::Char('.')),
            out@ =~= parts.deep_view().take(i as int).map_values(
                |p: Seq<char>|
                    match parse_u64_spec(p) {
                        Some(v) => v,
                        None => 0u64,
                    },
            ),
        decreases parts.len() - i,
    {
        proof {
            lemma_chars_deep_view(parts[i as int]);
        }
        let v = match parse_u64(parts[i].as_slice()) {
            Some(v) => v,
            None => 0,
        };
        out.push(v);
        assert(parts.deep_view().take(i + 1) =~= parts.deep_view().take(i as int).push(
            parts.deep_view()[i as int],
        ));
        i = i + 1;
    }
    assert(parts.deep_view().take(parts.len() as int) =~= parts.deep_view());
    out
}

/// The result of comparing two versions field by field, as -1, 0 or 1.
fn version_order_of(left: &str, right: &str) -> (r: i8)
    ensures
        r == version_order(left@, right@),
        -1 <= r <= 1,
{
    let a = version_numbers_of(left);
    let b = version_numbers_of(right);
    let length = if a.len() > b.len() {
        a.len()
    } else {
        b.len()
    };
    let mut i: usize = 0;
    while i < length
        invariant
            i <= length,
            length == if a@.len() > b@.len() {
                a@.len()
            } else {
                b@.len()
            },
            a@ == version_numbers(left@),
            b@ == version_numbers(right@),
            version_order(left@, right@) == version_order_from(a@, b@, i as int),
        decreases length - i,
    {
        let x: u64 = if i < a.len() {
            a[i]
        } else {
            0
        };
        let y: u64 = if i < b.len() {
            b[i]
        } else {
            0
        };
        if x < y {
            return -1;
        }
        if x > y {
            return 1;
        }
        i = i + 1;
    }
    0
}

/// Compares two release versions numerically, field by field; a missing or
/// non-numeric field counts as 0.
pub fn compare_versions(left: &str, right: &str) -> (r: std::cmp::Ordering)
    ensures
        match r {
            std::cmp::Ordering::Less => version_order(left@, right@) == -1,
            std::cmp::Ordering::Equal => version_order(left@, right@) == 0,
            std::cmp::Ordering::Greater => version_order(left@, right@) == 1,
        },
{
    let order = version_order_of(left, right);
    if order < 0 {
        std::cmp::Ordering::Less
    } else if order == 0 {
        std::cmp::Ordering::Equal
    } else {
        std::cmp::Ordering::Greater
    }
}

proof fn lemma_order_from_reflexive(a: Seq<u64>, i: int)
    ensures
        version_order_from(a, a, i) == 0,
    decreases a.len() + a.len() - i,
{
    if !(i < 0 || i >= a.len()) {
        lemma_order_from_reflexive(a, i + 1);
    }
}

proof fn lemma_order_from_antisymmetric(a: Seq<u64>, b: Seq<u64>, i: int)
    ensures
        version_order_from(a, b, i) == -version_order_from(b, a, i),
    decreases a.len() + b.len() - i,
{
    if !(i < 0 || (i >= a.len() && i >= b.len())) {
        lemma_order_from_antisymmetric(a, b, i + 1);
    }
}

proof fn lemma_order_from_transitive(a: Seq<u64>, b: Seq<u64>, c: Seq<u64>, i: int)
    requires
        version_order_from(a, b, i) <= 0,
        version_order_from(b, c, i) <= 0,
    ensures
        version_order_from(a, c, i) <= 0,
    decreases a.len() + b.len() + c.len() - i,
{
    if !(i < 0 || (i >= a.len() && i >= b.len() && i >= c.len())) {
        if field_at(a, i) == field_at(b, i) && field_at(b, i) == field_at(c, i) {
            lemma_order_from_transitive(a, b, c, i + 1);
        }
    } else {
        assert(version_order_from(a, c, i) == 0);
    }
}

/// A version compares equal to itself.
pub proof fn version_order_reflexive(a: Seq<char>)
    ensures
        version_order(a, a) == 0,
{
    lemma_order_from_reflexive(version_numbers(a), 0);
}

/// Swapping the operands of a version comparison reverses its result.
pub proof fn version_order_antisymmetric(a: Seq<char>, b: Seq<char>)
    ensures
        version_order(a, b) == -version_order(b, a),
{
    lemma_order_from_antisymmetric(version_numbers(a), version_numbers(b), 0);
}

/// Version comparison is transitive: `a <= b` and `b <= c` give `a <= c`.
pub proof fn version_order_transitive(a: Seq<char>, b: Seq<char>, c: Seq<char>)
    requires
        version_order(a, b) <= 0,
        version_order(b, c) <= 0,
    ensures
        version_order(a, c) <= 0,
{
    lemma_order_from_transitive(version_numbers(a), version_numbers(b), version_numbers(c), 0);
}

// ---------------------------------------------------------------------------
// Release decision
// ---------------------------------------------------------------------------

/// Why a release check could not decide.
#[derive(Clone, Copy, Debug, Eq, PartialEq)]
pub enum ReleaseCheckError {
    /// The latest release's tag is not a version.
    InvalidLatestTag,
    /// The running program's own version is not a version.
    InvalidCurrentVersion,
}

/// What a release check with the given tag and current version reports,
/// before the installer CDN has been confirmed ready.
pub open spec fn release_decision(tag: Seq<char>, current: Seq<char>) -> Result<
    Option<(Seq<char>, Seq<char>)>,
    ReleaseCheckError,
> {
    match normalize_version_spec(tag) {
        None => Err(ReleaseCheckError::InvalidLatestTag),
        Some(latest) => match normalize_version_spec(current) {
            None => Err(ReleaseCheckError::InvalidCurrentVersion),
            Some(cur) => if version_order(latest, cur) == 1 {
                Ok(Some((cur, latest)))
            } else {
                Ok(None)
            },
        },
    }
}

/// Decides whether the release tagged `tag_name` is newer than
/// `current_version`. A newer release is offered only once the application
/// has also confirmed that its installer is published.
pub fn release_update(current_version: &str, tag_name: &str, release_url: &str) -> (r: Result<
    Option<UpdateInfo>,
    ReleaseCheckError,
>)
    ensures
        match (r, release_decision(tag_name@, current_version@)) {
            (Ok(Some(info)), Ok(Some((cur, latest)))) => info.current_version@ == cur
                && info.latest_version@ == latest && info.release_url@ == release_url@,
            (Ok(None), Ok(None)) => true,
            (Err(e), Err(f)) => e == f,
            _ => false,
        },
{
    let latest = match normalize_version(tag_name) {
        Some(v) => v,
        None => return Err(ReleaseCheckError::InvalidLatestTag),
    };
    let current = match normalize_version(current_version) {
        Some(v) => v,
        None => return Err(ReleaseCheckError::InvalidCurrentVersion),
    };
    let order = version_order_of(latest.as_str(), current.as_str());
    if order == 1 {
        Ok(
            Some(
                UpdateInfo {
                    current_version: current,
                    latest_version: latest,
                    release_url: release_url.to_string(),
                },
            ),
        )
    } else {
        Ok(None)
    }
}

/// Seconds to wait after a failed installer readiness attempt:
/// `2^min(attempt - 1, 3)`, so 1, 2, 4, 8, 8, ...
pub open spec fn retry_delay_spec(attempt: nat) -> nat {
    if attempt <= 1 {
        1
    } else if attempt == 2 {
        2
    } else if attempt == 3 {
        4
    } else {
        8
    }
}

pub fn installer_retry_delay(attempt: usize) -> (seconds: u64)
    ensures
        seconds == retry_delay_spec(attempt as nat),
{
    let exponent: usize = if attempt == 0 {
        0
    } else if attempt - 1 < 3 {
        attempt - 1
    } else {
        3
    };
    let mut seconds: u64 = 1;
    let mut k: usize = 0;
    while k < exponent
        invariant
            k <= exponent <= 3,
            seconds == if k == 0 {
                1u64
            } else if k == 1 {
                2u64
            } else if k == 2 {
                4u64
            } else {
                8u64
            },
        decreases exponent - k,
    {
        seconds = seconds * 2;
        k = k + 1;
    }
    seconds
}

/// The release asset target for an operating system and CPU architecture, as
/// named by `std::env::consts`.
pub open spec fn release_target_spec(os: Seq<char>, arch: Seq<char>) -> Option<Seq<char>> {
    if os == "macos"@ && arch == "aarch64"@ {
        Some("aarch64-apple-darwin"@)
    } else if os == "macos"@ && arch == "x86_64"@ {
        Some("x86_64-apple-darwin"@)
    } else if os == "windows"@ && arch == "x86_64"@ {
        Some("x86_64-pc-windows-msvc"@)
    } else {
        None
    }
}

pub fn release_target(os: &str, arch: &str) -> (r: Option<&'static str>)
    ensures
        match r {
            Some(t) => release_target_spec(os@, arch@) == Some(t@),
            None => release_target_spec(os@, arch@) is None,
        },
{
    let o = chars_of(os);
    let a = chars_of(arch);
    let macos = crate::text::chars_eq_str(o.as_slice(), "macos");
    let windows = crate::text::chars_eq_str(o.as_slice(), "windows");
    let aarch64 = crate::text::chars_eq_str(a.as_slice(), "aarch64");
    let x86_64 = crate::text::chars_eq_str(a.as_slice(), "x86_64");
    if macos && aarch64 {
        Some("aarch64-apple-darwin")
    } else if macos && x86_64 {
        Some("x86_64-apple-darwin")
    } else if windows && x86_64 {
        Some("x86_64-pc-windows-msvc")
    } else {
        None
    }
}

// ---------------------------------------------------------------------------
// Installer readiness
// ---------------------------------------------------------------------------

pub open spec fn all_hex(s: Seq<char>) -> bool {
    forall|i: int| 0 <= i < s.len() ==> is_hex_digit(#[trigger] s[i])
}

/// A checksum-manifest line that lists `archive` with a SHA-256 checksum:
/// its first field is 64 hexadecimal digits, and its last field (a second
/// field at least), without leading `*`, is the archive name.
pub open spec fn manifest_line_lists(line: Seq<char>, archive: Seq<char>) -> bool {
    let w = words_seq(line);
    w.len() >= 2 && w[0].len() == 64 && all_hex(w[0]) && trim_start_char_seq(w.last(), '*')
        == archive
}

pub open spec fn manifest_lists(manifest: Seq<char>, archive: Seq<char>) -> bool {
    let ls = lines_seq(manifest);
    exists|i: int| 0 <= i < ls.len() && manifest_line_lists(#[trigger] ls[i], archive)
}

fn line_lists_archive(line: &[char], archive: &[char]) -> (r: bool)
    ensures
        r == manifest_line_lists(line@, archive@),
{
    let w = words(line);
    if w.len() < 2 {
        return false;
    }
    proof {
        lemma_chars_deep_view(w[0]);
        lemma_chars_deep_view(w[w.len() - 1]);
    }
    let checksum = &w[0];
    if checksum.len() != 64 {
        return false;
    }
    let mut i: usize = 0;
    while i < checksum.len()
        invariant
            i <= checksum@.len(),
            w.deep_view() =~= words_seq(line@),
            w.len() >= 2,
            checksum@ == w.deep_view()[0],
            checksum@.len() == 64,
            forall|j: int| 0 <= j < i ==> is_hex_digit(#[trigger] checksum@[j]),
        decreases checksum.len() - i,
    {
        if !is_ascii_hexdigit(checksum[i]) {
            assert(!is_hex_digit(checksum@[i as int]));
            assert(!all_hex(w.deep_view()[0]));
            return false;
        }
        i = i + 1;
    }
    let name = trim_start_char(w[w.len() - 1].as_slice(), '*');
    crate::text::chars_eq(name.as_slice(), archive)
}

/// Whether a release checksum manifest lists `archive` with a well-formed
/// SHA-256 checksum.
pub fn checksum_manifest_has_archive(manifest: &str, archive: &str) -> (r: bool)
    ensures
        r == manifest_lists(manifest@, archive@),
{
    let m = chars_of(manifest);
    let a = chars_of(archive);
    let ls = lines(m.as_slice());
    let mut i: usize = 0;
    while i < ls.len()
        invariant
            i <= ls.len(),
            a@ == archive@,
            ls.deep_view() =~= lines_seq(manifest@),
            forall|j: int| 0 <= j < i ==> !manifest_line_lists(#[trigger] ls.deep_view()[j], archive@),
        decreases ls.len() - i,
    {
        proof {
            lemma_chars_deep_view(ls[i as int]);
        }
        if line_lists_archive(ls[i].as_slice(), a.as_slice()) {
            assert(manifest_line_lists(ls.deep_view()[i as int], archive@));
            return true;
        }
        i = i + 1;
    }
    false
}

/// The `case` label an installer script uses for a version and target.
pub open spec fn case_entry(version: Seq<char>, target: Seq<char>) -> Seq<char> {
    version + seq![':'] + target + seq![')']
}

/// Whether the line after the first line whose trimmed text is the case
/// label for `version` and `target` sets a non-empty `EXPECTED_SHA256`.
pub open spec fn script_has_checksum(script: Seq<char>, version: Seq<char>, target: Seq<char>) -> bool {
    let ls = lines_seq(script);
    exists|k: int|
        0 <= k < ls.len() && trim_seq(#[trigger] ls[k]) == case_entry(version, target) && (forall|
            j: int,
        |
            0 <= j < k ==> trim_seq(#[trigger] ls[j]) != case_entry(version, target)) && k + 1
            < ls.len() && contains_seq(ls[k + 1], "EXPECTED_SHA256="@) && !contains_seq(
            ls[k + 1],
            "\"\""@,
        )
}

/// Whether the installer script carries a non-empty checksum for the
/// given version and release target.
pub fn installer_script_has_checksum(script: &str, version: &str, target: &str) -> (r: bool)
    ensures
        r == script_has_checksum(script@, version@, target@),
{
    let mut entry = version.to_string();
    push_char(&mut entry, ':');
    push_str(&mut entry, target);
    push_char(&mut entry, ')');
    let entry_chars = chars_of(entry.as_str());
    let sc = chars_of(script);
    let ls = lines(sc.as_slice());
    let mut i: usize = 0;
    while i < ls.len()
        invariant
            i <= ls.len(),
            entry_chars@ == case_entry(version@, target@),
            ls.deep_view() =~= lines_seq(script@),
            forall|j: int| 0 <= j < i ==> trim_seq(#[trigger] ls.deep_view()[j]) != case_entry(
                version@,
                target@,
            ),
        decreases ls.len() - i,
    {
        proof {
            lemma_chars_deep_view(ls[i as int]);
        }
        let t = trim(ls[i].as_slice());
        if crate::text::chars_eq(t.as_slice(), entry_chars.as_slice()) {
            if i + 1 < ls.len() {
                proof {
                    lemma_chars_deep_view(ls[i + 1]);
                }
                let next = &ls[i + 1];
                let has = contains_str(next.as_slice(), "EXPECTED_SHA256=");
                let empty = contains_str(next.as_slice(), "\"\"");
                proof {
                    if has && !empty {
                        assert(trim_seq(ls.deep_view()[i as int]) == case_entry(version@, target@));
                    } else {
                        assert forall|k: int|
                            0 <= k < ls.deep_view().len() && trim_seq(
                                #[trigger] ls.deep_view()[k],
                            ) == case_entry(version@, target@) && (forall|j: int|
                                0 <= j < k ==> trim_seq(#[trigger] ls.deep_view()[j])
                                    != case_entry(version@, target@)) implies !(k + 1
                            < ls.deep_view().len() && contains_seq(
                            ls.deep_view()[k + 1],
                            "EXPECTED_SHA256="@,
                        ) && !contains_seq(ls.deep_view()[k + 1], "\"\""@)) by {
                            if k > i {
                                assert(trim_seq(ls.deep_view()[i as int]) == case_entry(
                                    version@,
                                    target@,
                                ));
                            }
                        }
                    }
                }
                return has && !empty;
            } else {
                proof {
                    assert forall|k: int|
                        0 <= k < ls.deep_view().len() && trim_seq(#[trigger] ls.deep_view()[k])
                            == case_entry(version@, target@) && (forall|j: int|
                            0 <= j < k ==> trim_seq(#[trigger] ls.deep_view()[j]) != case_entry(
                                version@,
                                target@,
                            )) implies !(k + 1 < ls.deep_view().len()) by {
                        if k > i {
                            assert(trim_seq(ls.deep_view()[i as int]) == case_entry(
                                version@,
                                target@,
                            ));
                        }
                    }
                }
                return false;
            }
        }
        i = i + 1;
    }
    false
}

// ---------------------------------------------------------------------------
// Upgrade channel
// ---------------------------------------------------------------------------

/// How the running executable should be upgraded.
#[derive(Clone, Copy, Debug, Eq, PartialEq)]
pub enum UpgradeChannel {
    /// Installed by Homebrew: `brew update` then `brew upgrade`.
    Homebrew,
    /// A development build inside a `target` directory: refuse to upgrade.
    DevelopmentBuild,
    /// Installed by the curl/PowerShell installer: rerun it in place.
    Installer,
}

/// Whether an executable path lies inside a Homebrew `Cellar`.
pub fn is_homebrew_path(path: &str) -> (r: bool)
    ensures
        r == has_component_spec(path@, "Cellar"@),
{
    proof {
        reveal_strlit("Cellar");
    }
    has_component(path, "Cellar")
}

pub open spec fn upgrade_channel_spec(executable: Seq<char>) -> UpgradeChannel {
    if has_component_spec(executable, "Cellar"@) {
        UpgradeChannel::Homebrew
    } else if has_component_spec(executable, "target"@) {
        UpgradeChannel::DevelopmentBuild
    } else {
        UpgradeChannel::Installer
    }
}

/// Chooses the upgrade channel for the (canonical) executable path.
pub fn upgrade_channel(executable: &str) -> (r: UpgradeChannel)
    ensures
        r == upgrade_channel_spec(executable@),
{
    if is_homebrew_path(executable) {
        return UpgradeChannel::Homebrew;
    }
    proof {
        reveal_strlit("target");
    }
    if has_component(executable, "target") {
        UpgradeChannel::DevelopmentBuild
    } else {
        UpgradeChannel::Installer
    }
}

} // verus!
