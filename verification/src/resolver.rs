//! Locating the engine executable: first on the search path, then in the
//! well-known install locations of the platform.
//!
//! The resolver reads the host through two plain values: a [`HostEnv`] with the
//! environment variables it consults, and the list of paths that are regular
//! files. [`probe_paths`] names every path whose presence in that list matters.
//! Every path that is probed leaves one line in the notes, and so does a
//! home directory that cannot be resolved.

use crate::path::{join, join_spec, Platform};
use crate::text::{blank, concat2, is_blank, push_text, same_text};
use vstd::prelude::*;
use vstd::string::*;

verus! {

/// What the process environment says, as far as this crate reads it.
pub struct HostEnv {
    pub platform: Platform,
    /// The directories of the search path, in listed order.
    pub path_entries: Vec<String>,
    /// `HOME`, when set.
    pub home: Option<String>,
    /// `USERPROFILE`, when set.
    pub user_profile: Option<String>,
    /// `APPDATA`, when set.
    pub app_data: Option<String>,
    /// `XDG_CONFIG_HOME`, when set.
    pub xdg_config_home: Option<String>,
}

/// What a [`HostEnv`] holds, as mathematical values.
pub struct HostEnvView {
    pub platform: Platform,
    pub path_entries: Seq<Seq<char>>,
    pub home: Option<Seq<char>>,
    pub user_profile: Option<Seq<char>>,
    pub app_data: Option<Seq<char>>,
    pub xdg_config_home: Option<Seq<char>>,
}

impl View for HostEnv {
    type V = HostEnvView;

    open spec fn view(&self) -> HostEnvView {
        HostEnvView {
            platform: self.platform,
            path_entries: self.path_entries.deep_view(),
            home: self.home.deep_view(),
            user_profile: self.user_profile.deep_view(),
            app_data: self.app_data.deep_view(),
            xdg_config_home: self.xdg_config_home.deep_view(),
        }
    }
}

/// The file name of the engine executable.
pub open spec fn executable_name_spec(platform: Platform) -> Seq<char> {
    match platform {
        Platform::Windows => "opencode.exe"@,
        Platform::Unix => "opencode"@,
    }
}

/// The file name of the wrapper script that a package manager installs on Windows.
pub open spec fn wrapper_name_spec() -> Seq<char> {
    "opencode.cmd"@
}

/// `value` unless it is absent or blank.
pub open spec fn non_blank(value: Option<Seq<char>>) -> Option<Seq<char>> {
    match value {
        Some(v) => if is_blank(v) {
            None
        } else {
            value
        },
        None => None,
    }
}

/// The home directory: `HOME` unless absent or blank, else `USERPROFILE`
/// unless absent or blank.
pub open spec fn home_dir_spec(host: HostEnvView) -> Option<Seq<char>> {
    match non_blank(host.home) {
        Some(h) => Some(h),
        None => non_blank(host.user_profile),
    }
}

/// The directory into which the package manager links global commands on
/// Windows: `npm` under `APPDATA`.
pub open spec fn npm_global_bin_dir_spec(host: HostEnvView) -> Option<Seq<char>> {
    match non_blank(host.app_data) {
        Some(a) => Some(join_spec(host.platform, a, "npm"@)),
        None => None,
    }
}

/// `<home>/.opencode/bin/<name>`.
pub open spec fn install_path_spec(platform: Platform, home: Seq<char>, name: Seq<char>) -> Seq<
    char,
> {
    join_spec(platform, join_spec(platform, join_spec(platform, home, ".opencode"@), "bin"@), name)
}

/// The fallback locations, in the order in which they are probed.
pub open spec fn candidates_spec(host: HostEnvView) -> Seq<Seq<char>> {
    let p = host.platform;
    let exe = executable_name_spec(p);
    let home = home_dir_spec(host);
    let user_install = match home {
        Some(h) => seq![install_path_spec(p, h, exe)],
        None => Seq::empty(),
    };
    match p {
        Platform::Windows => {
            let npm = match npm_global_bin_dir_spec(host) {
                Some(n) => seq![join_spec(p, n, wrapper_name_spec()), join_spec(p, n, exe)],
                None => Seq::empty(),
            };
            let user_wrapper = match home {
                Some(h) => seq![install_path_spec(p, h, wrapper_name_spec())],
                None => Seq::empty(),
            };
            user_install + npm + user_wrapper
        },
        Platform::Unix => user_install + seq![
            join_spec(p, "/opt/homebrew/bin"@, exe),
            join_spec(p, "/usr/local/bin"@, exe),
            join_spec(p, "/usr/bin"@, exe),
        ],
    }
}

/// `name` inside each directory of the search path.
pub open spec fn path_candidates(platform: Platform, entries: Seq<Seq<char>>, name: Seq<char>) -> Seq<
    Seq<char>,
> {
    Seq::new(entries.len(), |i: int| join_spec(platform, entries[i], name))
}

/// The index of the first member of `paths` that `files` lists.
pub open spec fn first_file(paths: Seq<Seq<char>>, files: Seq<Seq<char>>) -> Option<int>
    decreases paths.len(),
{
    if paths.len() == 0 {
        None
    } else {
        match first_file(paths.drop_last(), files) {
            Some(i) => Some(i),
            None => if files.contains(paths.last()) {
                Some(paths.len() - 1)
            } else {
                None
            },
        }
    }
}

/// The first member of `paths` that `files` lists.
pub open spec fn first_file_path(paths: Seq<Seq<char>>, files: Seq<Seq<char>>) -> Option<Seq<char>> {
    match first_file(paths, files) {
        Some(i) => Some(paths[i]),
        None => None,
    }
}

/// `name` in the first directory of the search path where it is a regular file.
pub open spec fn resolve_in_path_spec(host: HostEnvView, name: Seq<char>, files: Seq<Seq<char>>) -> Option<
    Seq<char>,
> {
    first_file_path(path_candidates(host.platform, host.path_entries, name), files)
}

/// The executable found on the search path: under its primary name, or, on
/// Windows only, else under the wrapper's name.
pub open spec fn search_path_hit(host: HostEnvView, files: Seq<Seq<char>>) -> Option<Seq<char>> {
    match resolve_in_path_spec(host, executable_name_spec(host.platform), files) {
        Some(p) => Some(p),
        None => if host.platform == Platform::Windows {
            resolve_in_path_spec(host, wrapper_name_spec(), files)
        } else {
            None
        },
    }
}

/// The paths that are probed on the search path, in probing order: the
/// executable's name in every directory, then, on Windows only, the wrapper's
/// name in every directory.
pub open spec fn search_probes_spec(host: HostEnvView) -> Seq<Seq<char>> {
    let p = host.platform;
    let primary = path_candidates(p, host.path_entries, executable_name_spec(p));
    let wrapper = match p {
        Platform::Windows => path_candidates(p, host.path_entries, wrapper_name_spec()),
        Platform::Unix => Seq::empty(),
    };
    primary + wrapper
}

/// Every path that the resolver may ask about, in the order of asking: those
/// on the search path, then the fallback locations.
pub open spec fn probe_paths_spec(host: HostEnvView) -> Seq<Seq<char>> {
    search_probes_spec(host) + candidates_spec(host)
}

/// The line of the notes for one path that was probed.
pub open spec fn note_line(path: Seq<char>, on_search_path: bool, found: bool) -> Seq<char> {
    if on_search_path {
        if found {
            "Found in PATH: "@ + path
        } else {
            "Not in PATH: "@ + path
        }
    } else {
        if found {
            "Found at "@ + path
        } else {
            "Missing: "@ + path
        }
    }
}

/// One line for each of `paths` that was probed, in probing order: those
/// before the hit are misses, the hit is found, those behind it are not
/// looked at.
pub open spec fn probe_notes(paths: Seq<Seq<char>>, on_search_path: bool, hit: Option<int>) -> Seq<
    Seq<char>,
> {
    let probed = match hit {
        Some(i) => i + 1,
        None => paths.len() as int,
    };
    Seq::new(probed as nat, |i: int| note_line(paths[i], on_search_path, hit == Some(i)))
}

/// The line that records that no home directory could be resolved.
pub open spec fn home_unresolved_note() -> Seq<char> {
    "No home directory: the per-user install location is not checked"@
}

/// What the notes say of the home directory when the fallback locations are
/// turned to: one line if it is unresolved, nothing if it is known.
pub open spec fn home_notes(host: HostEnvView) -> Seq<Seq<char>> {
    match home_dir_spec(host) {
        Some(_) => Seq::empty(),
        None => seq![home_unresolved_note()],
    }
}

/// The resolved path, whether it was found on the search path, and the notes.
///
/// A hit on the search path ends the search, and the notes end with it.
/// Without one the fallback locations are probed: the notes then hold a line
/// for every probe of the search path, the line on an unresolved home
/// directory if there is none, and a line for every fallback location probed.
pub open spec fn resolution_spec(host: HostEnvView, files: Seq<Seq<char>>) -> (
    Option<Seq<char>>,
    bool,
    Seq<Seq<char>>,
) {
    let search = search_probes_spec(host);
    let candidates = candidates_spec(host);
    match first_file(search, files) {
        Some(i) => (Some(search[i]), true, probe_notes(search, true, Some(i))),
        None => (
            first_file_path(candidates, files),
            false,
            probe_notes(search, true, None) + home_notes(host) + probe_notes(
                candidates,
                false,
                first_file(candidates, files),
            ),
        ),
    }
}

/// `first_file` names the earliest listed path, and none only if none is listed.
pub proof fn lemma_first_file(paths: Seq<Seq<char>>, files: Seq<Seq<char>>)
    ensures
        match first_file(paths, files) {
            Some(i) => {
                &&& 0 <= i < paths.len()
                &&& files.contains(paths[i])
                &&& forall|j: int| 0 <= j < i ==> !files.contains(#[trigger] paths[j])
            },
            None => forall|j: int| 0 <= j < paths.len() ==> !files.contains(#[trigger] paths[j]),
        },
    decreases paths.len(),
{
    if paths.len() > 0 {
        let front = paths.drop_last();
        lemma_first_file(front, files);
        match first_file(front, files) {
            Some(i) => {
                assert(front[i] == paths[i]);
                assert forall|j: int| 0 <= j < i implies !files.contains(#[trigger] paths[j]) by {
                    assert(front[j] == paths[j]);
                }
            },
            None => {
                assert forall|j: int| 0 <= j < paths.len() - 1 implies !files.contains(
                    #[trigger] paths[j],
                ) by {
                    assert(front[j] == paths[j]);
                }
            },
        }
    }
}

/// Two file listings that agree on every member of `paths` give the same first file.
pub proof fn lemma_first_file_reads_only_paths(
    paths: Seq<Seq<char>>,
    files1: Seq<Seq<char>>,
    files2: Seq<Seq<char>>,
)
    requires
        forall|j: int|
            0 <= j < paths.len() ==> files1.contains(#[trigger] paths[j]) == files2.contains(paths[j]),
    ensures
        first_file(paths, files1) == first_file(paths, files2),
    decreases paths.len(),
{
    if paths.len() > 0 {
        let front = paths.drop_last();
        assert forall|j: int| 0 <= j < front.len() implies files1.contains(#[trigger] front[j])
            == files2.contains(front[j]) by {
            assert(front[j] == paths[j]);
        }
        lemma_first_file_reads_only_paths(front, files1, files2);
        assert(paths.last() == paths[paths.len() - 1]);
    }
}

/// The resolution depends on the file listing only through the probe paths.
pub proof fn lemma_resolution_reads_only_probes(
    host: HostEnvView,
    files1: Seq<Seq<char>>,
    files2: Seq<Seq<char>>,
)
    requires
        forall|j: int|
            0 <= j < probe_paths_spec(host).len() ==> files1.contains(
                #[trigger] probe_paths_spec(host)[j],
            ) == files2.contains(probe_paths_spec(host)[j]),
    ensures
        resolution_spec(host, files1) == resolution_spec(host, files2),
{
    let probes = probe_paths_spec(host);
    let search = search_probes_spec(host);
    let candidates = candidates_spec(host);
    assert forall|j: int| 0 <= j < search.len() implies files1.contains(#[trigger] search[j])
        == files2.contains(search[j]) by {
        assert(probes[j] == search[j]);
    }
    lemma_first_file_reads_only_paths(search, files1, files2);
    assert forall|j: int| 0 <= j < candidates.len() implies files1.contains(
        #[trigger] candidates[j],
    ) == files2.contains(candidates[j]) by {
        assert(probes[search.len() + j] == candidates[j]);
    }
    lemma_first_file_reads_only_paths(candidates, files1, files2);
}

/// The first file of two lists in a row is the first file of the first
/// list, or else that of the second.
pub proof fn lemma_first_file_concat(a: Seq<Seq<char>>, b: Seq<Seq<char>>, files: Seq<Seq<char>>)
    ensures
        first_file(a + b, files) == match first_file(a, files) {
            Some(i) => Some(i),
            None => match first_file(b, files) {
                Some(j) => Some(a.len() + j),
                None => None,
            },
        },
    decreases b.len(),
{
    if b.len() == 0 {
        assert(a + b =~= a);
    } else {
        assert((a + b).drop_last() =~= a + b.drop_last());
        assert((a + b).last() == b.last());
        lemma_first_file_concat(a, b.drop_last(), files);
    }
}

/// What is found on the search path wins over every fallback location: the
/// resolution is the search-path hit when there is one, and else the first
/// fallback location that is a regular file.
pub proof fn lemma_search_path_first(host: HostEnvView, files: Seq<Seq<char>>)
    ensures
        match search_path_hit(host, files) {
            Some(path) => resolution_spec(host, files).0 == Some(path) && resolution_spec(
                host,
                files,
            ).1,
            None => resolution_spec(host, files).0 == first_file_path(candidates_spec(host), files)
                && !resolution_spec(host, files).1,
        },
{
    let p = host.platform;
    let primary = path_candidates(p, host.path_entries, executable_name_spec(p));
    let wrapper = match p {
        Platform::Windows => path_candidates(p, host.path_entries, wrapper_name_spec()),
        Platform::Unix => Seq::empty(),
    };
    lemma_first_file(primary, files);
    lemma_first_file(wrapper, files);
    lemma_first_file_concat(primary, wrapper, files);
}

/// The notes always tell of an unresolved home directory when the search
/// turns to the fallback locations: the line stands between the lines of
/// the search path and those of the fallback locations, and nowhere when the
/// home directory is known or the search path gave a hit.
pub proof fn lemma_unresolved_home_is_noted(host: HostEnvView, files: Seq<Seq<char>>)
    ensures
        ({
            let notes = resolution_spec(host, files).2;
            let search = search_probes_spec(host);
            let candidates = candidates_spec(host);
            let fallback = probe_notes(candidates, false, first_file(candidates, files));
            if resolution_spec(host, files).1 {
                notes.len() <= search.len()
            } else if home_dir_spec(host) is None {
                &&& notes.len() == search.len() + 1 + fallback.len()
                &&& notes[search.len() as int] == home_unresolved_note()
                &&& forall|i: int|
                    0 <= i < search.len() ==> #[trigger] notes[i] == note_line(
                        search[i],
                        true,
                        false,
                    )
                &&& forall|i: int|
                    0 <= i < fallback.len() ==> #[trigger] notes[search.len() + 1 + i] == fallback[i]
            } else {
                &&& notes.len() == search.len() + fallback.len()
                &&& forall|i: int|
                    0 <= i < search.len() ==> #[trigger] notes[i] == note_line(
                        search[i],
                        true,
                        false,
                    )
                &&& forall|i: int|
                    0 <= i < fallback.len() ==> #[trigger] notes[search.len() + i] == fallback[i]
            }
        }),
{
    lemma_first_file(search_probes_spec(host), files);
    lemma_first_file(candidates_spec(host), files);
}

/// The file name of the engine executable on `platform`.
pub fn executable_name(platform: Platform) -> (name: &'static str)
    ensures
        name@ == executable_name_spec(platform),
{
    match platform {
        Platform::Windows => "opencode.exe",
        Platform::Unix => "opencode",
    }
}

/// The file name of the wrapper script on Windows.
pub fn wrapper_name() -> (name: &'static str)
    ensures
        name@ == wrapper_name_spec(),
{
    "opencode.cmd"
}

fn keep_non_blank(value: &Option<String>) -> (kept: Option<String>)
    ensures
        kept.deep_view() == non_blank(value.deep_view()),
{
    match value {
        Some(v) => {
            if blank(v.as_str()) {
                None
            } else {
                Some(v.clone())
            }
        },
        None => None,
    }
}

/// The home directory of the user, from `HOME` or else `USERPROFILE`; a blank
/// value counts as absent.
pub fn home_dir(host: &HostEnv) -> (home: Option<String>)
    ensures
        home.deep_view() == home_dir_spec(host@),
{
    match keep_non_blank(&host.home) {
        Some(h) => Some(h),
        None => keep_non_blank(&host.user_profile),
    }
}

/// The package manager's global command directory on Windows, from `APPDATA`.
pub fn npm_global_bin_dir(host: &HostEnv) -> (dir: Option<String>)
    ensures
        dir.deep_view() == npm_global_bin_dir_spec(host@),
{
    match keep_non_blank(&host.app_data) {
        Some(a) => Some(join(host.platform, a.as_str(), "npm")),
        None => None,
    }
}

fn install_path(platform: Platform, home: &str, name: &str) -> (path: String)
    ensures
        path@ == install_path_spec(platform, home@, name@),
{
    let dir = join(platform, home, ".opencode");
    let bin = join(platform, dir.as_str(), "bin");
    join(platform, bin.as_str(), name)
}

/// The well-known install locations of the engine, in probing order.
pub fn candidate_opencode_paths(host: &HostEnv) -> (candidates: Vec<String>)
    ensures
        candidates.deep_view() == candidates_spec(host@),
{
    let p = host.platform;
    let exe = executable_name(p);
    let mut candidates: Vec<String> = Vec::new();
    let home = home_dir(host);
    if let Some(h) = &home {
        candidates.push(install_path(p, h.as_str(), exe));
    }
    let ghost user_install = candidates.deep_view();
    proof {
        assert(user_install =~= match home_dir_spec(host@) {
            Some(h) => seq![install_path_spec(p, h, executable_name_spec(p))],
            None => Seq::empty(),
        });
    }
    match p {
        Platform::Windows => {
            if let Some(npm) = npm_global_bin_dir(host) {
                candidates.push(join(p, npm.as_str(), wrapper_name()));
                candidates.push(join(p, npm.as_str(), exe));
            }
            let ghost with_npm = candidates.deep_view();
            proof {
                assert(with_npm =~= user_install + match npm_global_bin_dir_spec(host@) {
                    Some(n) => seq![
                        join_spec(p, n, wrapper_name_spec()),
                        join_spec(p, n, executable_name_spec(p)),
                    ],
                    None => Seq::empty(),
                });
            }
            if let Some(h) = &home {
                candidates.push(install_path(p, h.as_str(), wrapper_name()));
            }
            proof {
                assert(candidates.deep_view() =~= with_npm + match home_dir_spec(host@) {
                    Some(h) => seq![install_path_spec(p, h, wrapper_name_spec())],
                    None => Seq::empty(),
                });
            }
        },
        Platform::Unix => {
            candidates.push(join(p, "/opt/homebrew/bin", exe));
            candidates.push(join(p, "/usr/local/bin", exe));
            candidates.push(join(p, "/usr/bin", exe));
            proof {
                assert(candidates.deep_view() =~= user_install + seq![
                    join_spec(p, "/opt/homebrew/bin"@, executable_name_spec(p)),
                    join_spec(p, "/usr/local/bin"@, executable_name_spec(p)),
                    join_spec(p, "/usr/bin"@, executable_name_spec(p)),
                ]);
            }
        },
    }
    candidates
}

/// Whether `files` lists `path`.
pub fn is_regular_file(files: &Vec<String>, path: &str) -> (listed: bool)
    ensures
        listed == files.deep_view().contains(path@),
{
    let n = files.len();
    let mut i: usize = 0;
    while i < n
        invariant
            i <= n,
            n == files.len(),
            forall|k: int| 0 <= k < i ==> files.deep_view()[k] != path@,
        decreases n - i,
    {
        if same_text(files[i].as_str(), path) {
            assert(files.deep_view()[i as int] == path@);
            return true;
        }
        i = i + 1;
    }
    false
}

/// `name` in the first directory of the search path where it is a regular file.
pub fn resolve_in_path(name: &str, host: &HostEnv, files: &Vec<String>) -> (found: Option<String>)
    ensures
        found.deep_view() == resolve_in_path_spec(host@, name@, files.deep_view()),
{
    let n = host.path_entries.len();
    let ghost all = path_candidates(host.platform, host@.path_entries, name@);
    let mut i: usize = 0;
    while i < n
        invariant
            i <= n,
            n == host.path_entries.len(),
            all == path_candidates(host.platform, host@.path_entries, name@),
            first_file(all.take(i as int), files.deep_view()) is None,
        decreases n - i,
    {
        let candidate = join(host.platform, host.path_entries[i].as_str(), name);
        let hit = is_regular_file(files, candidate.as_str());
        proof {
            let cur = all.take(i as int + 1);
            assert(cur.drop_last() =~= all.take(i as int));
            assert(cur.last() == candidate@);
            if hit {
                lemma_first_file_extends(all, i as int + 1, files.deep_view());
            }
        }
        if hit {
            return Some(candidate);
        }
        i = i + 1;
    }
    proof {
        assert(all.take(n as int) =~= all);
    }
    None
}

/// A hit among the first `k` paths is the hit among all of them.
pub proof fn lemma_first_file_extends(paths: Seq<Seq<char>>, k: int, files: Seq<Seq<char>>)
    requires
        0 <= k <= paths.len(),
        first_file(paths.take(k), files) is Some,
    ensures
        first_file(paths, files) == first_file(paths.take(k), files),
    decreases paths.len() - k,
{
    if k < paths.len() {
        let next = paths.take(k + 1);
        assert(next.drop_last() =~= paths.take(k));
        lemma_first_file_extends(paths, k + 1, files);
    } else {
        assert(paths.take(k) =~= paths);
    }
}

/// The notes grow by one line with each path that is probed.
pub proof fn lemma_notes_step(paths: Seq<Seq<char>>, on_search_path: bool, i: int)
    requires
        0 <= i < paths.len(),
    ensures
        probe_notes(paths.take(i + 1), on_search_path, None) == probe_notes(
            paths.take(i),
            on_search_path,
            None,
        ).push(note_line(paths[i], on_search_path, false)),
        probe_notes(paths, on_search_path, Some(i)) == probe_notes(
            paths.take(i),
            on_search_path,
            None,
        ).push(note_line(paths[i], on_search_path, true)),
{
    let before = probe_notes(paths.take(i), on_search_path, None);
    assert(probe_notes(paths.take(i + 1), on_search_path, None) =~= before.push(
        note_line(paths[i], on_search_path, false),
    ));
    assert(probe_notes(paths, on_search_path, Some(i)) =~= before.push(
        note_line(paths[i], on_search_path, true),
    ));
}

/// The line of the notes for one path that was probed.
pub fn note_for(path: &str, on_search_path: bool, found: bool) -> (line: String)
    ensures
        line@ == note_line(path@, on_search_path, found),
{
    let label = if on_search_path {
        if found {
            "Found in PATH: "
        } else {
            "Not in PATH: "
        }
    } else {
        if found {
            "Found at "
        } else {
            "Missing: "
        }
    };
    concat2(label, path)
}

/// The index of a hit, as a mathematical integer.
spec fn hit_view(hit: Option<usize>) -> Option<int> {
    match hit {
        Some(i) => Some(i as int),
        None => None,
    }
}

/// Probes `paths` in order up to the first that is a regular file, and notes
/// each probe.
fn probe_in_order(
    paths: &Vec<String>,
    on_search_path: bool,
    files: &Vec<String>,
    notes: &mut Vec<String>,
) -> (hit: Option<usize>)
    ensures
        hit_view(hit) == first_file(paths.deep_view(), files.deep_view()),
        hit matches Some(i) ==> i < paths.len(),
        final(notes).deep_view() == old(notes).deep_view() + probe_notes(
            paths.deep_view(),
            on_search_path,
            first_file(paths.deep_view(), files.deep_view()),
        ),
{
    let ghost before = notes.deep_view();
    let ghost all = paths.deep_view();
    let n = paths.len();
    let mut i: usize = 0;
    proof {
        assert(before + probe_notes(all.take(0), on_search_path, None) =~= before);
    }
    while i < n
        invariant
            i <= n,
            n == paths.len(),
            all == paths.deep_view(),
            before == old(notes).deep_view(),
            first_file(all.take(i as int), files.deep_view()) is None,
            notes.deep_view() == before + probe_notes(all.take(i as int), on_search_path, None),
        decreases n - i,
    {
        let hit = is_regular_file(files, paths[i].as_str());
        let ghost so_far = probe_notes(all.take(i as int), on_search_path, None);
        proof {
            let cur = all.take(i as int + 1);
            assert(cur.drop_last() =~= all.take(i as int));
            assert(cur.last() == all[i as int]);
            if hit {
                lemma_first_file_extends(all, i as int + 1, files.deep_view());
            }
            lemma_notes_step(all, on_search_path, i as int);
        }
        push_text(notes, note_for(paths[i].as_str(), on_search_path, hit));
        proof {
            assert(notes.deep_view() =~= before + so_far.push(
                note_line(all[i as int], on_search_path, hit),
            ));
        }
        if hit {
            proof {
                assert(first_file(all, files.deep_view()) == Some(i as int));
            }
            return Some(i);
        }
        i = i + 1;
    }
    proof {
        assert(all.take(n as int) =~= all);
    }
    None
}

/// Resolves the engine executable: the path, if any; whether it was found on
/// the search path; and the notes of the search. The notes hold one line for
/// every path that was probed on the way, hit or miss, in probing order, and
/// between the search path and the fallback locations one line if no home
/// directory could be resolved.
pub fn resolve_opencode_executable(host: &HostEnv, files: &Vec<String>) -> (resolution: (
    Option<String>,
    bool,
    Vec<String>,
))
    ensures
        resolution.0.deep_view() == resolution_spec(host@, files.deep_view()).0,
        resolution.1 == resolution_spec(host@, files.deep_view()).1,
        resolution.2.deep_view() == resolution_spec(host@, files.deep_view()).2,
{
    let mut notes: Vec<String> = Vec::new();
    let search = search_path_probes(host);
    if let Some(i) = probe_in_order(&search, true, files, &mut notes) {
        proof {
            assert(notes.deep_view() =~= probe_notes(search.deep_view(), true, Some(i as int)));
        }
        return (Some(search[i].clone()), true, notes);
    }
    let ghost searched = notes.deep_view();
    proof {
        assert(searched =~= probe_notes(search.deep_view(), true, None));
    }
    if home_dir(host).is_none() {
        push_text(
            &mut notes,
            "No home directory: the per-user install location is not checked".to_owned(),
        );
    }
    proof {
        assert(notes.deep_view() =~= searched + home_notes(host@));
    }
    let candidates = candidate_opencode_paths(host);
    match probe_in_order(&candidates, false, files, &mut notes) {
        Some(i) => (Some(candidates[i].clone()), false, notes),
        None => (None, false, notes),
    }
}

/// The paths that are probed on the search path, in probing order.
pub fn search_path_probes(host: &HostEnv) -> (paths: Vec<String>)
    ensures
        paths.deep_view() == search_probes_spec(host@),
{
    let p = host.platform;
    let mut paths: Vec<String> = Vec::new();
    append_path_candidates(&mut paths, host, executable_name(p));
    match p {
        Platform::Windows => {
            append_path_candidates(&mut paths, host, wrapper_name());
        },
        Platform::Unix => {
            assert(paths.deep_view() + Seq::<Seq<char>>::empty() =~= paths.deep_view());
        },
    }
    paths
}

/// Every path whose being a regular file the resolver may ask about.
pub fn probe_paths(host: &HostEnv) -> (paths: Vec<String>)
    ensures
        paths.deep_view() == probe_paths_spec(host@),
{
    let mut paths = search_path_probes(host);
    let candidates = candidate_opencode_paths(host);
    append_texts(&mut paths, &candidates);
    paths
}

fn append_texts(paths: &mut Vec<String>, more: &Vec<String>)
    ensures
        final(paths).deep_view() == old(paths).deep_view() + more.deep_view(),
{
    let ghost before = paths.deep_view();
    let ghost tail = more.deep_view();
    let n = more.len();
    let mut i: usize = 0;
    proof {
        assert(before + tail.take(0) =~= before);
    }
    while i < n
        invariant
            i <= n,
            n == more.len(),
            tail == more.deep_view(),
            paths.deep_view() == before + tail.take(i as int),
        decreases n - i,
    {
        push_text(paths, more[i].clone());
        proof {
            assert(before + tail.take(i as int + 1) =~= (before + tail.take(i as int)).push(
                tail[i as int],
            ));
        }
        i = i + 1;
    }
    proof {
        assert(tail.take(n as int) =~= tail);
    }
}

fn append_path_candidates(paths: &mut Vec<String>, host: &HostEnv, name: &str)
    ensures
        final(paths).deep_view() == old(paths).deep_view() + path_candidates(
            host.platform,
            host@.path_entries,
            name@,
        ),
{
    let ghost before = paths.deep_view();
    let ghost all = path_candidates(host.platform, host@.path_entries, name@);
    let n = host.path_entries.len();
    let mut i: usize = 0;
    proof {
        assert(before + all.take(0) =~= before);
    }
    while i < n
        invariant
            i <= n,
            n == host.path_entries.len(),
            all == path_candidates(host.platform, host@.path_entries, name@),
            paths.deep_view() == before + all.take(i as int),
        decreases n - i,
    {
        push_text(paths, join(host.platform, host.path_entries[i].as_str(), name));
        proof {
            assert(before + all.take(i as int + 1) =~= (before + all.take(i as int)).push(
                all[i as int],
            ));
        }
        i = i + 1;
    }
    proof {
        assert(all.take(n as int) =~= all);
    }
}

} // verus!
