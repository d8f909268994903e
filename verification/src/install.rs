//! Tenant tool installs: choosing the release for this platform, checking
//! downloads, naming and placing what archives hold, and which hosts and
//! tokens are accepted.
use vstd::prelude::*;

use crate::strmap::KeyedMap;
use crate::text::{
    concat, concat3, ends_with, first_index_of, has_prefix, has_suffix, last_index_of, owned, rfind_char,
    slice_chars, starts_with, str_eq, strip_prefix, strip_suffix, to_ascii_lowercase, ascii_lower,
    trim, trim_ws,
};

verus! {

/// The operating system and architecture tools are installed for.
#[derive(Clone, Debug, PartialEq, Eq)]
pub struct Platform {
    pub os: String,
    pub arch: String,
}

/// One downloadable build of a tenant tool.
#[derive(Clone, Debug, PartialEq, Eq)]
pub struct ReleaseTarget {
    pub os: String,
    pub arch: String,
    pub url: String,
    pub sha256: Option<String>,
}

/// Why an install step was refused.
#[derive(Clone, Debug, PartialEq, Eq)]
pub enum InstallError {
    /// No build for this platform.
    NoTarget { os: String, arch: String },
    /// The download's digest is not the expected one.
    ChecksumMismatch { expected: String, actual: String },
    /// A doc install path that is absolute.
    AbsolutePath,
    /// A doc install path that leaves the docs directory.
    EscapingPath,
    /// A URL that does not parse.
    InvalidUrl(String),
    /// A URL without a host.
    NoHost(String),
    /// A host other than GitHub's (or the local machine).
    NotGithub(String),
    /// No token and no terminal to ask for one.
    MissingTokenNonInteractive,
    /// A blank token and no terminal to ask for another.
    EmptyTokenNonInteractive,
    /// The `env:` variable naming the token is not set.
    EnvTokenUnset(String),
    /// The `env:` variable naming the token is blank.
    EnvTokenEmpty(String),
}

/// The first target built for the platform.
pub fn select_release_target<'a>(targets: &'a Vec<ReleaseTarget>, platform: &Platform) -> (r: Result<
    &'a ReleaseTarget,
    InstallError,
>)
    ensures
        match r {
            Ok(t) => exists|i: int|
                0 <= i < targets@.len() && targets@[i] == *t && t.os@ == platform.os@ && t.arch@
                    == platform.arch@ && forall|j: int|
                    0 <= j < i ==> !(#[trigger] targets@[j].os@ == platform.os@ && targets@[j].arch@
                        == platform.arch@),
            Err(e) => (e matches InstallError::NoTarget { os, arch } && os@ == platform.os@ && arch@
                == platform.arch@) && forall|j: int|
                0 <= j < targets@.len() ==> !(#[trigger] targets@[j].os@ == platform.os@
                    && targets@[j].arch@ == platform.arch@),
        },
{
    let mut i: usize = 0;
    while i < targets.len()
        invariant
            i <= targets@.len(),
            forall|j: int|
                0 <= j < i ==> !(#[trigger] targets@[j].os@ == platform.os@ && targets@[j].arch@
                    == platform.arch@),
        decreases targets@.len() - i,
    {
        let t = &targets[i];
        if str_eq(t.os.as_str(), platform.os.as_str()) && str_eq(t.arch.as_str(), platform.arch.as_str()) {
            return Ok(t);
        }
        i = i + 1;
    }
    Err(InstallError::NoTarget { os: platform.os.clone(), arch: platform.arch.clone() })
}

/// The SHA-256 digest `sha2` computes for some bytes.
pub uninterp spec fn sha256_of(bytes: Seq<u8>) -> Seq<u8>;

/// `sha2::Sha256::digest`, as its 32 bytes.
#[verifier::external_body]
fn sha256_digest(bytes: &[u8]) -> (r: Vec<u8>)
    ensures
        r@ == sha256_of(bytes@),
        r@.len() == 32,
{
    <sha2::Sha256 as sha2::Digest>::digest(bytes).to_vec()
}

/// The lower-case hex digit of a nibble.
pub open spec fn hex_digit(n: u8) -> char {
    if n < 10 {
        ((n + 48) as u8) as char
    } else {
        ((n + 87) as u8) as char
    }
}

/// Two lower-case hex digits per byte.
pub open spec fn hex_text(bytes: Seq<u8>) -> Seq<char>
    decreases bytes.len(),
{
    if bytes.len() == 0 {
        Seq::empty()
    } else {
        hex_text(bytes.drop_last()) + seq![
            hex_digit(bytes.last() / 16),
            hex_digit(bytes.last() % 16),
        ]
    }
}

fn hex_char(n: u8) -> (c: char)
    requires
        n < 16,
    ensures
        c == hex_digit(n),
{
    if n < 10 {
        (n + 48) as char
    } else {
        (n + 87) as char
    }
}

/// The lower-case hex SHA-256 digest of `bytes`.
pub fn sha256_hex(bytes: &[u8]) -> (r: String)
    ensures
        r@ == hex_text(sha256_of(bytes@)),
{
    let digest = sha256_digest(bytes);
    let mut out = String::new();
    let mut i: usize = 0;
    while i < digest.len()
        invariant
            i <= digest@.len(),
            out@ == hex_text(digest@.take(i as int)),
        decreases digest@.len() - i,
    {
        let b = digest[i];
        let ghost next = digest@.take(i + 1);
        assert(next.drop_last() =~= digest@.take(i as int));
        crate::text::push_char(&mut out, hex_char(b / 16));
        crate::text::push_char(&mut out, hex_char(b % 16));
        assert(out@ =~= hex_text(next));
        i = i + 1;
    }
    assert(digest@.take(digest@.len() as int) =~= digest@);
    out
}

/// A download passes when its digest equals the expected one, case aside.
pub fn verify_sha256(bytes: &[u8], expected: &str) -> (r: Result<(), InstallError>)
    ensures
        r is Ok <==> hex_text(sha256_of(bytes@)) == ascii_lower(expected@),
        r matches Err(e) ==> (e matches InstallError::ChecksumMismatch { expected: x, actual } && x@
            == expected@ && actual@ == hex_text(sha256_of(bytes@))),
{
    let actual = sha256_hex(bytes);
    let lowered = to_ascii_lowercase(expected);
    if !str_eq(actual.as_str(), lowered.as_str()) {
        return Err(InstallError::ChecksumMismatch { expected: owned(expected), actual });
    }
    Ok(())
}

/// The release asset holding a tenant's install manifest.
pub fn tenant_manifest_asset_name(tenant: &str) -> (r: String)
    ensures
        r@ == tenant@ + ".json"@,
{
    concat(tenant, ".json")
}

/// Where the customers' tools release is read from.
pub fn github_latest_release_api_url() -> (r: String)
    ensures
        r@ == "https://api.github.com/repos/greentic-biz/customers-tools/releases/tags/latest"@,
{
    "https://api.github.com/repos/greentic-biz/customers-tools/releases/tags/latest".to_string()
}

/// The text after the last `c`, or all of it.
pub open spec fn tail_after(s: Seq<char>, c: char) -> Seq<char> {
    match last_index_of(s, c) {
        Some(i) => s.skip(i + 1),
        None => s,
    }
}

fn tail_after_exec(s: &str, c: char) -> (r: String)
    ensures
        r@ == tail_after(s@, c),
{
    match rfind_char(s, c) {
        Some(i) => {
            proof {
                crate::text::lemma_last_index_in_range(s@, c);
            }
            let n = s.unicode_len();
            let r = slice_chars(s, i + 1, n);
            assert(r@ =~= s@.skip(i + 1));
            r
        },
        None => owned(s),
    }
}

/// The file name a URL points at: its last path segment, `download.bin` when that is empty.
pub open spec fn file_name_hint_spec(url: Seq<char>) -> Seq<char> {
    if tail_after(url, '/').len() > 0 {
        tail_after(url, '/')
    } else {
        "download.bin"@
    }
}

pub fn file_name_hint(url: &str) -> (r: String)
    ensures
        r@ == file_name_hint_spec(url@),
{
    let last = tail_after_exec(url, '/');
    if last.unicode_len() > 0 {
        last
    } else {
        "download.bin".to_string()
    }
}

/// A version segment: an optional `v`, then digits, dots, underscores and
/// dashes, at least one digit.
pub open spec fn version_segment(seg: Seq<char>) -> bool {
    version_digits(without_v(seg))
}

/// `seg` without a leading `v`.
pub open spec fn without_v(seg: Seq<char>) -> Seq<char> {
    if has_prefix(seg, "v"@) {
        seg.skip(1)
    } else {
        seg
    }
}

/// Digits, dots, underscores and dashes, with at least one digit.
pub open spec fn version_digits(t: Seq<char>) -> bool {
    &&& t.len() > 0
    &&& forall|i: int|
        0 <= i < t.len() ==> ('0' <= #[trigger] t[i] <= '9' || t[i] == '.' || t[i] == '_' || t[i]
            == '-')
    &&& exists|i: int| 0 <= i < t.len() && '0' <= #[trigger] t[i] <= '9'
}

pub fn is_version_segment(segment: &str) -> (r: bool)
    ensures
        r == version_segment(segment@),
{
    let t = match strip_prefix(segment, "v") {
        Some(t) => t,
        None => owned(segment),
    };
    proof {
        reveal_strlit("v");
    }
    let n = t.unicode_len();
    if n == 0 {
        return false;
    }
    let mut digit = false;
    let mut i: usize = 0;
    while i < n
        invariant
            n == t@.len(),
            i <= n,
            t@ == without_v(segment@),
            forall|k: int|
                0 <= k < i ==> ('0' <= #[trigger] t@[k] <= '9' || t@[k] == '.' || t@[k] == '_' || t@[k]
                    == '-'),
            digit == exists|k: int| 0 <= k < i && '0' <= #[trigger] t@[k] <= '9',
        decreases n - i,
    {
        let c = t.get_char(i);
        if !(('0' <= c && c <= '9') || c == '.' || c == '_' || c == '-') {
            return false;
        }
        if '0' <= c && c <= '9' {
            digit = true;
        }
        i = i + 1;
    }
    digit
}

/// A prerelease identifier: one or more ASCII letters and digits.
pub open spec fn prerelease_segment(seg: Seq<char>) -> bool {
    seg.len() > 0 && forall|i: int|
        0 <= i < seg.len() ==> ('0' <= #[trigger] seg[i] <= '9' || 'a' <= seg[i] <= 'z' || 'A'
            <= seg[i] <= 'Z')
}

pub fn is_prerelease_segment(segment: &str) -> (r: bool)
    ensures
        r == prerelease_segment(segment@),
{
    let n = segment.unicode_len();
    if n == 0 {
        return false;
    }
    let mut i: usize = 0;
    while i < n
        invariant
            n == segment@.len(),
            i <= n,
            forall|k: int|
                0 <= k < i ==> ('0' <= #[trigger] segment@[k] <= '9' || 'a' <= segment@[k] <= 'z'
                    || 'A' <= segment@[k] <= 'Z'),
        decreases n - i,
    {
        let c = segment.get_char(i);
        if !(('0' <= c && c <= '9') || ('a' <= c && c <= 'z') || ('A' <= c && c <= 'Z')) {
            return false;
        }
        i = i + 1;
    }
    true
}

/// A binary name without a trailing version (`-v1.2.3`), or without a
/// trailing version and prerelease (`-v1.2.49-dev`).
pub open spec fn strip_version_spec(name: Seq<char>) -> Seq<char> {
    match last_index_of(name, '-') {
        None => name,
        Some(i) => {
            let prefix = name.take(i);
            let last = name.skip(i + 1);
            if version_segment(last) {
                prefix
            } else {
                match last_index_of(prefix, '-') {
                    None => name,
                    Some(j) => if version_segment(prefix.skip(j + 1)) && prerelease_segment(last) {
                        prefix.take(j)
                    } else {
                        name
                    },
                }
            }
        },
    }
}

pub fn strip_version_suffix(name: &str) -> (r: String)
    ensures
        r@ == strip_version_spec(name@),
{
    let i = match rfind_char(name, '-') {
        Some(i) => i,
        None => return owned(name),
    };
    proof {
        crate::text::lemma_last_index_in_range(name@, '-');
    }
    let n = name.unicode_len();
    let prefix = slice_chars(name, 0, i);
    let last = slice_chars(name, i + 1, n);
    assert(prefix@ =~= name@.take(i as int));
    assert(last@ =~= name@.skip(i + 1));
    if is_version_segment(last.as_str()) {
        return prefix;
    }
    let j = match rfind_char(prefix.as_str(), '-') {
        Some(j) => j,
        None => return owned(name),
    };
    proof {
        crate::text::lemma_last_index_in_range(prefix@, '-');
    }
    let head = slice_chars(prefix.as_str(), 0, j);
    let version = slice_chars(prefix.as_str(), j + 1, i);
    assert(head@ =~= prefix@.take(j as int));
    assert(version@ =~= prefix@.skip(j + 1));
    if is_version_segment(version.as_str()) && is_prerelease_segment(last.as_str()) {
        head
    } else {
        owned(name)
    }
}

/// `s` without `suffix`, when it ends with it.
pub open spec fn without_suffix(s: Seq<char>, suffix: Seq<char>) -> Option<Seq<char>> {
    if has_suffix(s, suffix) {
        Some(s.subrange(0, s.len() - suffix.len()))
    } else {
        None
    }
}

/// The release targets a binary archive name ends in.
pub open spec fn release_targets() -> Seq<Seq<char>> {
    seq![
        "-x86_64-unknown-linux-gnu"@,
        "-aarch64-unknown-linux-gnu"@,
        "-x86_64-apple-darwin"@,
        "-aarch64-apple-darwin"@,
        "-x86_64-pc-windows-msvc"@,
        "-aarch64-pc-windows-msvc"@,
    ]
}

/// `s` without the first of `suffixes` it ends with.
pub open spec fn without_first_suffix(s: Seq<char>, suffixes: Seq<Seq<char>>) -> Option<Seq<char>>
    decreases suffixes.len(),
{
    if suffixes.len() == 0 {
        None
    } else if has_suffix(s, suffixes[0]) {
        without_suffix(s, suffixes[0])
    } else {
        without_first_suffix(s, suffixes.drop_first())
    }
}

fn strip_first_suffix(s: &str, suffixes: &Vec<String>) -> (r: Option<String>)
    ensures
        match r {
            Some(t) => without_first_suffix(s@, suffixes.deep_view()) == Some(t@),
            None => without_first_suffix(s@, suffixes.deep_view()) is None,
        },
{
    let ghost all = suffixes.deep_view();
    let mut i: usize = 0;
    assert(all.skip(0) =~= all);
    while i < suffixes.len()
        invariant
            i <= suffixes@.len(),
            all == suffixes.deep_view(),
            without_first_suffix(s@, all) == without_first_suffix(s@, all.skip(i as int)),
        decreases suffixes@.len() - i,
    {
        assert(all.skip(i as int)[0] == suffixes@[i as int]@);
        assert(all.skip(i as int).drop_first() =~= all.skip(i + 1));
        if let Some(t) = strip_suffix(s, suffixes[i].as_str()) {
            return Some(t);
        }
        i = i + 1;
    }
    None
}

/// The binary an install expects: the archive's name without its extension,
/// target and version; the configured name when the archive names no target.
pub open spec fn expected_binary_spec(configured: Seq<char>, url: Seq<char>) -> Seq<char> {
    let asset = file_name_hint_spec(url);
    let stem = match without_first_suffix(asset, seq![".tar.gz"@, ".tgz"@, ".zip"@]) {
        Some(s) => s,
        None => asset,
    };
    match without_first_suffix(stem, release_targets()) {
        Some(prefix) => strip_version_spec(prefix),
        None => configured,
    }
}

pub fn expected_binary_name(configured: &str, url: &str) -> (r: String)
    ensures
        r@ == expected_binary_spec(configured@, url@),
{
    let asset = file_name_hint(url);
    let mut exts: Vec<String> = Vec::new();
    exts.push(".tar.gz".to_string());
    exts.push(".tgz".to_string());
    exts.push(".zip".to_string());
    assert(exts.deep_view() =~= seq![".tar.gz"@, ".tgz"@, ".zip"@]);
    let stem = match strip_first_suffix(asset.as_str(), &exts) {
        Some(s) => s,
        None => asset,
    };
    let mut targets: Vec<String> = Vec::new();
    targets.push("-x86_64-unknown-linux-gnu".to_string());
    targets.push("-aarch64-unknown-linux-gnu".to_string());
    targets.push("-x86_64-apple-darwin".to_string());
    targets.push("-aarch64-apple-darwin".to_string());
    targets.push("-x86_64-pc-windows-msvc".to_string());
    targets.push("-aarch64-pc-windows-msvc".to_string());
    assert(targets.deep_view() =~= release_targets());
    match strip_first_suffix(stem.as_str(), &targets) {
        Some(prefix) => strip_version_suffix(prefix.as_str()),
        None => owned(configured),
    }
}

/// `s` without a trailing `.exe`.
pub open spec fn without_exe(s: Seq<char>) -> Seq<char> {
    match without_suffix(s, ".exe"@) {
        Some(t) => t,
        None => s,
    }
}

/// An archive entry is the expected binary: the same name (`.exe` aside), the
/// name followed by `-` or `_`, or the name with a version after it.
pub open spec fn archive_matches(expected: Seq<char>, actual: Seq<char>) -> bool {
    let e = without_exe(expected);
    let a = without_exe(actual);
    a == e || has_prefix(a, e + "-"@) || has_prefix(a, e + "_"@) || strip_version_spec(a) == e
}

fn drop_exe(s: &str) -> (r: String)
    ensures
        r@ == without_exe(s@),
{
    match strip_suffix(s, ".exe") {
        Some(t) => t,
        None => owned(s),
    }
}

pub fn archive_name_matches(expected: &str, actual: &str) -> (r: bool)
    ensures
        r == archive_matches(expected@, actual@),
{
    let e = drop_exe(expected);
    let a = drop_exe(actual);
    let dash = concat(e.as_str(), "-");
    let underscore = concat(e.as_str(), "_");
    str_eq(a.as_str(), e.as_str()) || starts_with(a.as_str(), dash.as_str()) || starts_with(
        a.as_str(),
        underscore.as_str(),
    ) || str_eq(strip_version_suffix(a.as_str()).as_str(), e.as_str())
}

/// Permission bits of an extracted binary.
pub const BINARY_FILE_MODE: u32 = 0o755;

/// Permission bits of any other extracted file.
pub const DATA_FILE_MODE: u32 = 0o644;

/// An archive entry is made executable when it is (or may be) the binary.
pub fn extracted_entry_mode(binary_name: &str, entry_name: &str) -> (r: u32)
    ensures
        r == (if entry_name@ == binary_name@ || archive_matches(binary_name@, entry_name@) {
            BINARY_FILE_MODE
        } else {
            DATA_FILE_MODE
        }),
{
    if str_eq(entry_name, binary_name) || archive_name_matches(binary_name, entry_name) {
        BINARY_FILE_MODE
    } else {
        DATA_FILE_MODE
    }
}

/// The `/`-separated fields of `s`.
pub open spec fn split_spec(s: Seq<char>, c: char) -> Seq<Seq<char>>
    decreases s.len(),
{
    match last_index_of(s, c) {
        Some(i) => {
            proof {
                crate::text::lemma_last_index_in_range(s, c);
            }
            split_spec(s.take(i), c).push(s.skip(i + 1))
        },
        None => seq![s],
    }
}

/// Splitting a prefix that ends in a field started right after a `c` (or at the beginning).
proof fn lemma_split_prefix(s: Seq<char>, c: char, start: int, i: int)
    requires
        0 <= start <= i <= s.len(),
        forall|k: int| start <= k < i ==> s[k] != c,
        start > 0 ==> s[start - 1] == c,
    ensures
        split_spec(s.take(i), c) == (if start == 0 {
            seq![s.take(i)]
        } else {
            split_spec(s.take(start - 1), c).push(s.subrange(start, i))
        }),
{
    let t = s.take(i);
    crate::text::lemma_last_index_of(t, c, start - 1);
    if start > 0 {
        assert(t.take(start - 1) =~= s.take(start - 1));
        assert(t.skip(start) =~= s.subrange(start, i));
    }
}

/// `s` split at every `c`.
pub fn split_on(s: &str, c: char) -> (r: Vec<String>)
    ensures
        r.deep_view() == split_spec(s@, c),
{
    let n = s.unicode_len();
    let mut fields: Vec<String> = Vec::new();
    let mut current = String::new();
    let mut start: usize = 0;
    let mut i: usize = 0;
    while i < n
        invariant
            n == s@.len(),
            start <= i <= n,
            current@ == s@.subrange(start as int, i as int),
            forall|k: int| start <= k < i ==> s@[k] != c,
            start == 0 ==> fields.deep_view().len() == 0,
            start > 0 ==> s@[start - 1] == c && fields.deep_view() == split_spec(s@.take(start - 1), c),
        decreases n - i,
    {
        let ch = s.get_char(i);
        if ch == c {
            proof {
                lemma_split_prefix(s@, c, start as int, i as int);
            }
            let ghost before = fields.deep_view();
            fields.push(current);
            assert(fields.deep_view() =~= split_spec(s@.take(i as int), c));
            current = String::new();
            start = i + 1;
            assert(current@ =~= s@.subrange(start as int, start as int));
        } else {
            crate::text::push_char(&mut current, ch);
            assert(current@ =~= s@.subrange(start as int, i + 1));
        }
        i = i + 1;
    }
    proof {
        lemma_split_prefix(s@, c, start as int, n as int);
        assert(s@.take(n as int) =~= s@);
    }
    let ghost before = fields.deep_view();
    fields.push(current);
    assert(fields.deep_view() =~= split_spec(s@, c));
    fields
}

/// The path's `/`-separated parts that name something: not empty, not `.`.
pub open spec fn named_parts(parts: Seq<Seq<char>>) -> Seq<Seq<char>>
    decreases parts.len(),
{
    if parts.len() == 0 {
        Seq::empty()
    } else if parts.last().len() == 0 || parts.last() == "."@ {
        named_parts(parts.drop_last())
    } else {
        named_parts(parts.drop_last()).push(parts.last())
    }
}

/// An archive entry's path made relative: its named parts joined by `/`;
/// `None` when it is absolute, climbs with `..`, or names nothing.
pub open spec fn safe_relative_spec(path: Seq<char>) -> Option<Seq<char>> {
    let parts = split_spec(path, '/');
    if has_prefix(path, "/"@) || parts.contains(".."@) || named_parts(parts).len() == 0 {
        None
    } else {
        Some(crate::wizard::join_spec(named_parts(parts), "/"@))
    }
}

pub fn safe_archive_relative_path(path: &str) -> (r: Option<String>)
    ensures
        match r {
            Some(p) => safe_relative_spec(path@) == Some(p@),
            None => safe_relative_spec(path@) is None,
        },
{
    if starts_with(path, "/") {
        return None;
    }
    let parts = split_on(path, '/');
    let ghost all = parts.deep_view();
    let mut named: Vec<String> = Vec::new();
    let mut i: usize = 0;
    while i < parts.len()
        invariant
            i <= parts@.len(),
            all == parts.deep_view(),
            all == split_spec(path@, '/'),
            !has_prefix(path@, "/"@),
            named.deep_view() == named_parts(all.take(i as int)),
            forall|k: int| 0 <= k < i ==> all[k] != ".."@,
        decreases parts@.len() - i,
    {
        let ghost next = all.take(i + 1);
        assert(next.drop_last() =~= all.take(i as int));
        let part = parts[i].as_str();
        assert(next.last() == part@);
        if str_eq(part, "..") {
            assert(all[i as int] == ".."@);
            assert(all.contains(".."@));
            return None;
        }
        if part.unicode_len() > 0 && !str_eq(part, ".") {
            let ghost before = named.deep_view();
            named.push(parts[i].clone());
            assert(named.deep_view() =~= before.push(part@));
        }
        i = i + 1;
    }
    assert(all.take(all.len() as int) =~= all);
    assert(!all.contains(".."@));
    if named.len() == 0 {
        return None;
    }
    Some(crate::wizard::join(&named, "/"))
}

/// A doc install path is kept as given when it is relative and never climbs with `..`.
pub fn sanitize_relative_path(path: &str) -> (r: Result<String, InstallError>)
    ensures
        has_prefix(path@, "/"@) ==> r == Err::<String, InstallError>(InstallError::AbsolutePath),
        !has_prefix(path@, "/"@) && split_spec(path@, '/').contains(".."@) ==> r == Err::<
            String,
            InstallError,
        >(InstallError::EscapingPath),
        !has_prefix(path@, "/"@) && !split_spec(path@, '/').contains(".."@) ==> (r matches Ok(p)
            && p@ == path@),
{
    if starts_with(path, "/") {
        return Err(InstallError::AbsolutePath);
    }
    let parts = split_on(path, '/');
    if crate::ordered::contains_str(&parts, "..") {
        return Err(InstallError::EscapingPath);
    }
    Ok(owned(path))
}

/// The language part of a locale: the text before the first `-` or `_`.
pub open spec fn language_part(locale: Seq<char>) -> Seq<char>
    decreases locale.len(),
{
    if locale.len() == 0 {
        locale
    } else if locale[0] == '-' || locale[0] == '_' {
        Seq::empty()
    } else {
        seq![locale[0]] + language_part(locale.drop_first())
    }
}

fn language_of(locale: &str) -> (r: String)
    ensures
        r@ == language_part(locale@),
{
    let n = locale.unicode_len();
    let mut i: usize = 0;
    assert(locale@.skip(0) =~= locale@);
    assert(locale@.take(0) + language_part(locale@) =~= language_part(locale@));
    while i < n && locale.get_char(i) != '-' && locale.get_char(i) != '_'
        invariant
            n == locale@.len(),
            i <= n,
            language_part(locale@) == locale@.take(i as int) + language_part(locale@.skip(i as int)),
        decreases n - i,
    {
        let c = locale.get_char(i);
        assert(locale@.skip(i as int)[0] == c);
        assert(locale@.skip(i as int).drop_first() =~= locale@.skip(i + 1));
        assert(locale@.take(i + 1) =~= locale@.take(i as int) + seq![c]);
        assert(locale@.take(i as int) + (seq![c] + language_part(locale@.skip(i + 1))) =~= locale@.take(
            i + 1,
        ) + language_part(locale@.skip(i + 1)));
        i = i + 1;
    }
    let r = slice_chars(locale, 0, i);
    assert(r@ =~= locale@.take(i as int));
    if i < n {
        assert(locale@.skip(i as int)[0] == locale@[i as int]);
    } else {
        assert(locale@.skip(i as int) =~= Seq::<char>::empty());
    }
    assert(r@ =~= language_part(locale@));
    r
}

/// A translation for `locale`, else for its language.
pub fn resolve_translation<'a, V: View>(map: &'a KeyedMap<V>, locale: &str) -> (r: Option<&'a V>)
    ensures
        match r {
            Some(v) => if map@.contains_key(locale@) {
                map@[locale@] == v@
            } else {
                map@.contains_key(language_part(locale@)) && map@[language_part(locale@)] == v@
            },
            None => !map@.contains_key(locale@) && !map@.contains_key(language_part(locale@)),
        },
{
    if let Some(exact) = map.get(locale) {
        return Some(exact);
    }
    let lang = language_of(locale);
    map.get(lang.as_str())
}

/// A binary's file name on the platform (`.exe` added on Windows).
pub fn binary_filename(name: &str, windows: bool) -> (r: String)
    ensures
        r@ == (if windows && !has_suffix(name@, ".exe"@) {
            name@ + ".exe"@
        } else {
            name@
        }),
{
    if windows && !ends_with(name, ".exe") {
        concat(name, ".exe")
    } else {
        owned(name)
    }
}

/// Where the install token comes from.
#[derive(Clone, Debug, PartialEq, Eq)]
pub enum TokenSource {
    /// Ask on the terminal.
    Prompt,
    /// Read the environment variable of this name.
    Env(String),
    /// Use the token as given.
    Given(String),
}

/// The token given (`env:VAR` names a variable), or a prompt when none or a
/// blank one is given and a terminal is there to ask on.
pub fn token_source(raw: Option<&str>, interactive: bool) -> (r: Result<TokenSource, InstallError>)
    ensures
        match raw {
            None => if interactive {
                r == Ok::<TokenSource, InstallError>(TokenSource::Prompt)
            } else {
                r == Err::<TokenSource, InstallError>(InstallError::MissingTokenNonInteractive)
            },
            Some(t) => if has_prefix(t@, "env:"@) {
                r matches Ok(TokenSource::Env(v)) && v@ == t@.skip(4)
            } else if trim_ws(t@).len() == 0 {
                if interactive {
                    r == Ok::<TokenSource, InstallError>(TokenSource::Prompt)
                } else {
                    r == Err::<TokenSource, InstallError>(InstallError::EmptyTokenNonInteractive)
                }
            } else {
                r matches Ok(TokenSource::Given(g)) && g@ == t@
            },
        },
{
    let raw = match raw {
        None => {
            if interactive {
                return Ok(TokenSource::Prompt);
            }
            return Err(InstallError::MissingTokenNonInteractive);
        },
        Some(t) => t,
    };
    if let Some(var) = strip_prefix(raw, "env:") {
        proof {
            reveal_strlit("env:");
        }
        return Ok(TokenSource::Env(var));
    }
    if trim(raw).unicode_len() == 0 {
        if interactive {
            return Ok(TokenSource::Prompt);
        }
        return Err(InstallError::EmptyTokenNonInteractive);
    }
    Ok(TokenSource::Given(owned(raw)))
}

/// The token an `env:VAR` names: the variable's value, which must be set and not blank.
pub fn token_from_env(var: &str, value: Option<String>) -> (r: Result<String, InstallError>)
    ensures
        match value {
            None => r matches Err(InstallError::EnvTokenUnset(v)) && v@ == var@,
            Some(t) => if trim_ws(t@).len() == 0 {
                r matches Err(InstallError::EnvTokenEmpty(v)) && v@ == var@
            } else {
                r matches Ok(s) && s@ == t@
            },
        },
{
    match value {
        None => Err(InstallError::EnvTokenUnset(owned(var))),
        Some(t) => {
            if trim(t.as_str()).unicode_len() == 0 {
                Err(InstallError::EnvTokenEmpty(owned(var)))
            } else {
                Ok(t)
            }
        },
    }
}

/// What `url::Url::parse` yields for a text: its host (if it has one) and its path.
pub uninterp spec fn url_parts(url: Seq<char>) -> Option<(Option<Seq<char>>, Seq<char>)>;

/// `reqwest::Url::parse` (the `url` crate's `Url`), then `host_str` and `path`;
/// `None` where parsing fails.
#[verifier::external_body]
fn parse_url(url: &str) -> (r: Option<(Option<String>, String)>)
    ensures
        match r {
            Some((h, p)) => url_parts(url@) == Some(
                (
                    match h {
                        Some(s) => Some(s@),
                        None => None,
                    },
                    p@,
                ),
            ),
            None => url_parts(url@) is None,
        },
{
    reqwest::Url::parse(url).ok().map(|u| (u.host_str().map(|h| h.to_string()), u.path().to_string()))
}

/// Hosts release assets may be downloaded from.
pub open spec fn github_host(host: Seq<char>) -> bool {
    ||| host == "github.com"@
    ||| has_suffix(host, ".github.com"@)
    ||| host == "raw.githubusercontent.com"@
    ||| has_suffix(host, ".githubusercontent.com"@)
    ||| host == "127.0.0.1"@
    ||| host == "localhost"@
}

/// Only GitHub-hosted assets (or local ones) are downloaded.
pub fn enforce_github_url(url: &str) -> (r: Result<(), InstallError>)
    ensures
        match url_parts(url@) {
            None => r matches Err(InstallError::InvalidUrl(u)) && u@ == url@,
            Some((None, _)) => r matches Err(InstallError::NoHost(u)) && u@ == url@,
            Some((Some(h), _)) => if github_host(h) {
                r is Ok
            } else {
                r matches Err(InstallError::NotGithub(x)) && x@ == h
            },
        },
{
    let (host, _) = match parse_url(url) {
        Some(parts) => parts,
        None => return Err(InstallError::InvalidUrl(owned(url))),
    };
    let host = match host {
        Some(h) => h,
        None => return Err(InstallError::NoHost(owned(url))),
    };
    let h = host.as_str();
    let allowed = str_eq(h, "github.com") || ends_with(h, ".github.com") || str_eq(
        h,
        "raw.githubusercontent.com",
    ) || ends_with(h, ".githubusercontent.com") || str_eq(h, "127.0.0.1") || str_eq(h, "localhost");
    if !allowed {
        return Err(InstallError::NotGithub(host));
    }
    Ok(())
}

/// A GitHub release download URL, by its parts.
#[derive(Clone, Debug, PartialEq, Eq)]
pub struct GithubReleaseUrlSpec {
    pub owner: String,
    pub repo: String,
    pub tag: String,
    pub asset_name: String,
}

/// `github.com/<owner>/<repo>/releases/download/<tag>/<asset…>` or
/// `…/releases/latest/download/<asset…>`, by its parts.
pub open spec fn release_url_parts(url: Seq<char>) -> Option<(Seq<char>, Seq<char>, Seq<char>, Seq<char>)> {
    match url_parts(url) {
        Some((Some(host), path)) => if host == "github.com"@ && has_prefix(path, "/"@) {
            let s = split_spec(path.skip(1), '/');
            if s.len() >= 6 && s[2] == "releases"@ {
                if s[3] == "download"@ {
                    Some((s[0], s[1], s[4], crate::wizard::join_spec(s.skip(5), "/"@)))
                } else if s[3] == "latest"@ && s[4] == "download"@ {
                    Some((s[0], s[1], "latest"@, crate::wizard::join_spec(s.skip(5), "/"@)))
                } else {
                    None
                }
            } else {
                None
            }
        } else {
            None
        },
        _ => None,
    }
}

pub fn parse_github_release_url(url: &str) -> (r: Option<GithubReleaseUrlSpec>)
    ensures
        match r {
            Some(g) => release_url_parts(url@) == Some((g.owner@, g.repo@, g.tag@, g.asset_name@)),
            None => release_url_parts(url@) is None,
        },
{
    let (host, path) = match parse_url(url) {
        Some(parts) => parts,
        None => return None,
    };
    match &host {
        Some(h) => {
            if !str_eq(h.as_str(), "github.com") {
                return None;
            }
        },
        None => return None,
    }
    let rest = match strip_prefix(path.as_str(), "/") {
        Some(rest) => rest,
        None => return None,
    };
    proof {
        reveal_strlit("/");
    }
    let segments = split_on(rest.as_str(), '/');
    if segments.len() < 6 || !str_eq(segments[2].as_str(), "releases") {
        return None;
    }
    let ghost s = segments.deep_view();
    assert(s[2] == segments@[2]@);
    assert(s[3] == segments@[3]@);
    assert(s[4] == segments@[4]@);
    let tag = if str_eq(segments[3].as_str(), "download") {
        segments[4].clone()
    } else if str_eq(segments[3].as_str(), "latest") && str_eq(segments[4].as_str(), "download") {
        "latest".to_string()
    } else {
        return None;
    };
    let mut asset_parts: Vec<String> = Vec::new();
    let mut i: usize = 5;
    while i < segments.len()
        invariant
            5 <= i <= segments@.len(),
            s == segments.deep_view(),
            asset_parts.deep_view() == s.subrange(5, i as int),
        decreases segments@.len() - i,
    {
        let ghost before = asset_parts.deep_view();
        assert(s[i as int] == segments@[i as int]@);
        let part = segments[i].clone();
        asset_parts.push(part);
        assert(asset_parts.deep_view() =~= before.push(part@));
        assert(s.subrange(5, i + 1) =~= s.subrange(5, i as int).push(s[i as int]));
        i = i + 1;
    }
    assert(s.subrange(5, s.len() as int) =~= s.skip(5));
    Some(
        GithubReleaseUrlSpec {
            owner: segments[0].clone(),
            repo: segments[1].clone(),
            tag,
            asset_name: crate::wizard::join(&asset_parts, "/"),
        },
    )
}

/// Every binary name matches an archive entry of the same name.
pub proof fn lemma_archive_matches_itself(name: Seq<char>)
    ensures
        archive_matches(name, name),
{
}

/// What an install says when an archive holds nothing to install: the
/// binary it looked for, where the archive was dumped, and its entries.
pub fn missing_binary_message(binary_name: &str, debug_dir: &str, entries: &Vec<String>) -> (r: String)
    ensures
        r@ == "archive did not contain `"@ + binary_name@ + "`. extracted debug dump to `"@ + debug_dir@
            + "` with entries: "@ + crate::wizard::join_spec(entries.deep_view(), ", "@),
{
    let head = concat3("archive did not contain `", binary_name, "`. extracted debug dump to `");
    let with_dir = concat3(head.as_str(), debug_dir, "` with entries: ");
    let listed = crate::wizard::join(entries, ", ");
    concat(with_dir.as_str(), listed.as_str())
}

} // verus!
