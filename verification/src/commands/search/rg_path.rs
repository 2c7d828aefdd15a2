//! Where ripgrep is found.

use crate::commands::reply::IpcResult;
use crate::text::{
    is_white_space, law_trimming_takes_white_space_only, same_text, trim, trimmed,
};
use vstd::prelude::*;

verus! {

/// The name of the bundled ripgrep on the given operating system and processor.
pub open spec fn sidecar_name(os: Seq<char>, arch: Seq<char>) -> Seq<char> {
    if os == "windows"@ {
        "rg-x86_64-pc-windows-msvc.exe"@
    } else if os == "macos"@ {
        if arch == "aarch64"@ {
            "rg-aarch64-apple-darwin"@
        } else {
            "rg-x86_64-apple-darwin"@
        }
    } else if os == "linux"@ {
        if arch == "aarch64"@ {
            "rg-aarch64-unknown-linux-gnu"@
        } else if arch == "arm"@ {
            "rg-armv7-unknown-linux-gnueabihf"@
        } else {
            "rg-x86_64-unknown-linux-musl"@
        }
    } else {
        "rg"@
    }
}

/// The name of the bundled ripgrep on the given operating system and processor.
pub fn rg_sidecar_name(os: &str, arch: &str) -> (r: &'static str)
    ensures
        r@ == sidecar_name(os@, arch@),
{
    if same_text(os, "windows") {
        "rg-x86_64-pc-windows-msvc.exe"
    } else if same_text(os, "macos") {
        if same_text(arch, "aarch64") {
            "rg-aarch64-apple-darwin"
        } else {
            "rg-x86_64-apple-darwin"
        }
    } else if same_text(os, "linux") {
        if same_text(arch, "aarch64") {
            "rg-aarch64-unknown-linux-gnu"
        } else if same_text(arch, "arm") {
            "rg-armv7-unknown-linux-gnueabihf"
        } else {
            "rg-x86_64-unknown-linux-musl"
        }
    } else {
        "rg"
    }
}

/// The directory that a candidate is looked for under.
#[derive(Debug, Clone, Copy, PartialEq, Eq, Structural)]
pub enum RgBase {
    /// The current directory.
    CurrentDir,
    /// The directory of the running program.
    ExeDir,
}

/// A place to look for ripgrep: path components to join to a directory.
#[derive(Debug, Clone)]
pub struct RgCandidate {
    pub base: RgBase,
    pub components: Vec<String>,
}

impl DeepView for RgCandidate {
    type V = (RgBase, Seq<Seq<char>>);

    open spec fn deep_view(&self) -> (RgBase, Seq<Seq<char>>) {
        (self.base, self.components.deep_view())
    }
}

/// The path that the environment names, unless it is blank.
pub open spec fn env_path(value: Option<Seq<char>>) -> Option<Seq<char>> {
    match value {
        Some(path) if trimmed(path).len() > 0 => Some(path),
        _ => None,
    }
}

/// The places to look, in order. A relative path from the environment is looked
/// for under the current directory and its `src-tauri`; an absolute one is not
/// looked for. Without one, the bundled program is looked for in the source
/// tree and beside the running program.
pub open spec fn candidates(
    env: Option<Seq<char>>,
    env_is_absolute: bool,
    has_cwd: bool,
    has_exe_dir: bool,
    binary: Seq<char>,
) -> Seq<(RgBase, Seq<Seq<char>>)> {
    match env_path(env) {
        Some(path) => if env_is_absolute || !has_cwd {
            Seq::empty()
        } else {
            seq![
                (RgBase::CurrentDir, seq![path]),
                (RgBase::CurrentDir, seq!["src-tauri"@, path]),
            ]
        },
        None => {
            let in_cwd = if has_cwd {
                seq![
                    (RgBase::CurrentDir, seq!["src-tauri"@, "bin"@, binary]),
                    (RgBase::CurrentDir, seq!["bin"@, binary]),
                ]
            } else {
                Seq::empty()
            };
            let by_exe = if has_exe_dir {
                seq![
                    (RgBase::ExeDir, seq![binary]),
                    (RgBase::ExeDir, seq!["../Resources"@, binary]),
                    (RgBase::ExeDir, seq!["../lib"@, binary]),
                ]
            } else {
                Seq::empty()
            };
            in_cwd + by_exe
        },
    }
}

/// Whether `value` names a path that is not blank.
fn names_a_path(value: &Option<String>) -> (r: bool)
    ensures
        r == (env_path(value.deep_view()) is Some),
{
    match value {
        Some(path) => {
            let blank = trim(path).is_empty();
            !blank
        },
        None => false,
    }
}

/// A place with one component.
fn place1(base: RgBase, a: &str) -> (r: RgCandidate)
    ensures
        r.deep_view() == (base, seq![a@]),
{
    let components = vec![a.to_string()];
    assert(components.deep_view() =~= seq![a@]);
    RgCandidate { base, components }
}

/// A place with two components.
fn place2(base: RgBase, a: &str, b: &str) -> (r: RgCandidate)
    ensures
        r.deep_view() == (base, seq![a@, b@]),
{
    let components = vec![a.to_string(), b.to_string()];
    assert(components.deep_view() =~= seq![a@, b@]);
    RgCandidate { base, components }
}

/// A place with three components.
fn place3(base: RgBase, a: &str, b: &str, c: &str) -> (r: RgCandidate)
    ensures
        r.deep_view() == (base, seq![a@, b@, c@]),
{
    let components = vec![a.to_string(), b.to_string(), c.to_string()];
    assert(components.deep_view() =~= seq![a@, b@, c@]);
    RgCandidate { base, components }
}

/// The places to look, in order.
pub fn rg_candidates(
    env: &Option<String>,
    env_is_absolute: bool,
    has_cwd: bool,
    has_exe_dir: bool,
    binary: &str,
) -> (r: Vec<RgCandidate>)
    ensures
        r.deep_view() == candidates(
            env.deep_view(),
            env_is_absolute,
            has_cwd,
            has_exe_dir,
            binary@,
        ),
{
    let mut places: Vec<RgCandidate> = Vec::new();
    if names_a_path(env) {
        if let Some(path) = env {
            if !env_is_absolute && has_cwd {
                places.push(place1(RgBase::CurrentDir, path));
                places.push(place2(RgBase::CurrentDir, "src-tauri", path));
            }
        }
    } else {
        if has_cwd {
            places.push(place3(RgBase::CurrentDir, "src-tauri", "bin", binary));
            places.push(place2(RgBase::CurrentDir, "bin", binary));
        }
        if has_exe_dir {
            places.push(place1(RgBase::ExeDir, binary));
            places.push(place2(RgBase::ExeDir, "../Resources", binary));
            places.push(place2(RgBase::ExeDir, "../lib", binary));
        }
    }
    assert(places.deep_view() =~= candidates(
        env.deep_view(),
        env_is_absolute,
        has_cwd,
        has_exe_dir,
        binary@,
    ));
    places
}

/// The first path that was found, of what looking in each place gave.
pub open spec fn first_found(found: Seq<Option<Seq<char>>>) -> Option<Seq<char>>
    decreases found.len(),
{
    if found.len() == 0 {
        None
    } else if found[0] is Some {
        found[0]
    } else {
        first_found(found.drop_first())
    }
}

/// The path of ripgrep and where it comes from: what was found first, or else
/// the path from the environment as it stands, or else the bare name.
pub open spec fn resolved(env: Option<Seq<char>>, found: Seq<Option<Seq<char>>>) -> (
    Seq<char>,
    Seq<char>,
) {
    match (env_path(env), first_found(found)) {
        (Some(_), Some(path)) => (path, "env"@),
        (Some(path), None) => (path, "env"@),
        (None, Some(path)) => (path, "sidecar"@),
        (None, None) => ("rg"@, "path"@),
    }
}

/// The path of ripgrep and where it comes from. `env` is what the environment
/// names; `found` has for each place to look, in order, the path there where it
/// is an existing file.
pub fn resolve_rg_path(env: Option<String>, found: Vec<Option<String>>) -> (r: (String, String))
    ensures
        (r.0@, r.1@) == resolved(env.deep_view(), found.deep_view()),
{
    let from_env = names_a_path(&env);
    let ghost all = found.deep_view();
    let mut i: usize = 0;
    assert(all.skip(0) =~= all);
    while i < found.len()
        invariant
            i <= found.len(),
            all == found.deep_view(),
            from_env == (env_path(env.deep_view()) is Some),
            first_found(all) == first_found(all.skip(i as int)),
        decreases found.len() - i,
    {
        assert(all.skip(i as int)[0] == found@[i as int].deep_view());
        assert(all.skip(i as int).drop_first() =~= all.skip(i + 1));
        if let Some(path) = &found[i] {
            let source = if from_env {
                "env"
            } else {
                "sidecar"
            };
            return (path.clone(), source.to_string());
        }
        i += 1;
    }
    match env {
        Some(path) => if from_env {
            (path, "env".to_string())
        } else {
            ("rg".to_string(), "path".to_string())
        },
        None => ("rg".to_string(), "path".to_string()),
    }
}

/// The path in use: the one resolved before, or else the one resolved now. It
/// stays the same from then on.
pub fn detect_rg_path(cached: Option<String>, resolved_now: String) -> (r: String)
    ensures
        r@ == (match cached {
            Some(path) => path@,
            None => resolved_now@,
        }),
{
    match cached {
        Some(path) => path,
        None => resolved_now,
    }
}

/// What is told about ripgrep.
#[derive(Debug, Clone)]
pub struct RgInfoResponse {
    pub sidecar_binary_name: String,
    pub resolved_path: String,
    pub source: String,
    pub exists: bool,
}

/// What is told about ripgrep: the name of the bundled program on this system,
/// the path in use and where it comes from, and whether something is there.
pub fn search_get_rg_info(os: &str, arch: &str, located: (String, String), exists: bool) -> (r:
    IpcResult<RgInfoResponse>)
    ensures
        r.well_formed(),
        r.success,
        r.data matches Some(info) && info.sidecar_binary_name@ == sidecar_name(os@, arch@)
            && info.resolved_path == located.0 && info.source == located.1 && info.exists == exists,
{
    IpcResult::success(
        RgInfoResponse {
            sidecar_binary_name: rg_sidecar_name(os, arch).to_string(),
            resolved_path: located.0,
            source: located.1,
            exists,
        },
    )
}

// ==================== Laws ====================

/// A path that the environment names is always used: as it stands, or where it
/// was found; the bundled program and the bare name come only without it.
pub proof fn law_environment_path_comes_first(
    env: Option<Seq<char>>,
    found: Seq<Option<Seq<char>>>,
)
    ensures
        env_path(env) is Some <==> resolved(env, found).1 == "env"@,
        env_path(env) is Some && first_found(found) is None ==> resolved(env, found).0
            == env_path(env)->0,
        env_path(env) is None && first_found(found) is None ==> resolved(env, found) == (
            "rg"@,
            "path"@,
        ),
{
    reveal_strlit("env");
    reveal_strlit("sidecar");
    reveal_strlit("path");
    assert("env"@.len() == 3 && "sidecar"@.len() == 7 && "path"@.len() == 4);
}

/// What is found first is what stands at the first place that has something.
proof fn lemma_first_found(found: Seq<Option<Seq<char>>>, i: int)
    requires
        0 <= i < found.len(),
        found[i] is Some,
        forall|j: int| 0 <= j < i ==> #[trigger] found[j] is None,
    ensures
        first_found(found) == found[i],
    decreases found.len(),
{
    if i > 0 {
        assert(found[0] is None);
        let rest = found.drop_first();
        assert forall|j: int| 0 <= j < i - 1 implies #[trigger] rest[j] is None by {
            assert(rest[j] == found[j + 1]);
        }
        lemma_first_found(rest, i - 1);
    }
}

/// The first of the places to look that has a file gives the path: where `look`
/// says what is at each place, and nothing is at those before the place `i`,
/// the path in use is that of the place `i`.
pub proof fn law_first_place_is_used(
    env: Option<Seq<char>>,
    env_is_absolute: bool,
    has_cwd: bool,
    has_exe_dir: bool,
    binary: Seq<char>,
    look: spec_fn((RgBase, Seq<Seq<char>>)) -> Option<Seq<char>>,
    i: int,
)
    requires
        ({
            let places = candidates(env, env_is_absolute, has_cwd, has_exe_dir, binary);
            &&& 0 <= i < places.len()
            &&& look(places[i]) is Some
            &&& forall|j: int| 0 <= j < i ==> look(#[trigger] places[j]) is None
        }),
    ensures
        ({
            let places = candidates(env, env_is_absolute, has_cwd, has_exe_dir, binary);
            resolved(env, places.map_values(look)).0 == look(places[i])->0
        }),
{
    let places = candidates(env, env_is_absolute, has_cwd, has_exe_dir, binary);
    lemma_first_found(places.map_values(look), i);
}

/// The bundled program is named after the system and the processor that it is
/// built for; on any other system it has the bare name.
pub proof fn law_bundled_program_is_named_by_its_system(os: Seq<char>, arch: Seq<char>)
    ensures
        sidecar_name("windows"@, arch) == "rg-x86_64-pc-windows-msvc.exe"@,
        sidecar_name("macos"@, "aarch64"@) == "rg-aarch64-apple-darwin"@,
        arch != "aarch64"@ ==> sidecar_name("macos"@, arch) == "rg-x86_64-apple-darwin"@,
        sidecar_name("linux"@, "aarch64"@) == "rg-aarch64-unknown-linux-gnu"@,
        sidecar_name("linux"@, "arm"@) == "rg-armv7-unknown-linux-gnueabihf"@,
        arch != "aarch64"@ && arch != "arm"@ ==> sidecar_name("linux"@, arch)
            == "rg-x86_64-unknown-linux-musl"@,
        os != "windows"@ && os != "macos"@ && os != "linux"@ ==> sidecar_name(os, arch) == "rg"@,
{
    reveal_strlit("windows");
    reveal_strlit("macos");
    reveal_strlit("linux");
    reveal_strlit("aarch64");
    reveal_strlit("arm");
    assert("windows"@.len() == 7 && "macos"@[0] == 'm' && "linux"@[0] == 'l');
    assert("macos"@.len() == 5 && "linux"@.len() == 5);
    assert("aarch64"@.len() == 7 && "arm"@.len() == 3);
}

/// A path from the environment counts, as it is, just where it has a character
/// that is no white space.
pub proof fn law_blank_environment_path_does_not_count(path: Seq<char>)
    ensures
        env_path(None) is None,
        env_path(Some(path)) is Some <==> exists|i: int|
            0 <= i < path.len() && !is_white_space(#[trigger] path[i]),
        env_path(Some(path)) is Some ==> env_path(Some(path))->0 == path,
{
    let ends = law_trimming_takes_white_space_only(path);
    if trimmed(path).len() > 0 {
        assert(!is_white_space(path[ends.0]));
    }
}

/// A relative path from the environment is looked for under the current
/// directory and its `src-tauri`, in this order, and an absolute one nowhere.
/// Without one, the bundled program is looked for in the source tree first, and
/// then beside the running program.
pub proof fn law_places_to_look(
    env: Option<Seq<char>>,
    env_is_absolute: bool,
    has_cwd: bool,
    has_exe_dir: bool,
    binary: Seq<char>,
)
    ensures
        ({
            let places = candidates(env, env_is_absolute, has_cwd, has_exe_dir, binary);
            let here: int = if has_cwd {
                2
            } else {
                0
            };
            &&& env_path(env) is Some && (env_is_absolute || !has_cwd) ==> places.len() == 0
            &&& env_path(env) is Some && !env_is_absolute && has_cwd ==> places.len() == 2
                && places[0].0 == RgBase::CurrentDir && places[0].1 == seq![env->0] && places[1].0
                == RgBase::CurrentDir && places[1].1 == seq!["src-tauri"@, env->0]
            &&& env_path(env) is None ==> places.len() == here + (if has_exe_dir {
                3int
            } else {
                0int
            })
            &&& env_path(env) is None && has_cwd ==> places[0].0 == RgBase::CurrentDir
                && places[0].1 == seq!["src-tauri"@, "bin"@, binary] && places[1].0
                == RgBase::CurrentDir && places[1].1 == seq!["bin"@, binary]
            &&& env_path(env) is None && has_exe_dir ==> places[here].0 == RgBase::ExeDir
                && places[here].1 == seq![binary] && places[here + 1].0 == RgBase::ExeDir
                && places[here + 1].1 == seq!["../Resources"@, binary] && places[here + 2].0
                == RgBase::ExeDir && places[here + 2].1 == seq!["../lib"@, binary]
        }),
{
}

/// What is used is the first path that was found, of any place; it is said to be
/// that of the environment where the environment names one, and else a bundled
/// one.
pub proof fn law_first_found_path_is_used(
    env: Option<Seq<char>>,
    found: Seq<Option<Seq<char>>>,
    i: int,
)
    requires
        0 <= i < found.len(),
        found[i] is Some,
        forall|j: int| 0 <= j < i ==> #[trigger] found[j] is None,
    ensures
        resolved(env, found).0 == found[i]->0,
        env_path(env) is Some ==> resolved(env, found).1 == "env"@,
        env_path(env) is None ==> resolved(env, found).1 == "sidecar"@,
{
    lemma_first_found(found, i);
}

/// Where nothing was found, the path of the environment is used as it stands, or
/// else the bare name.
pub proof fn law_nothing_found_falls_back(
    env: Option<Seq<char>>,
    found: Seq<Option<Seq<char>>>,
)
    requires
        forall|j: int| 0 <= j < found.len() ==> #[trigger] found[j] is None,
    ensures
        env_path(env) is Some ==> resolved(env, found) == (env_path(env)->0, "env"@),
        env_path(env) is None ==> resolved(env, found) == ("rg"@, "path"@),
    decreases found.len(),
{
    if found.len() > 0 {
        assert(found[0] is None);
        let rest = found.drop_first();
        assert forall|j: int| 0 <= j < rest.len() implies #[trigger] rest[j] is None by {
            assert(rest[j] == found[j + 1]);
        }
        law_nothing_found_falls_back(env, rest);
    }
}

/// A place to look as a value has its directory and its components, in order.
pub proof fn law_place_model_has_every_component(place: RgCandidate)
    ensures
        place.deep_view().0 == place.base,
        place.deep_view().1.len() == place.components@.len(),
        forall|i: int|
            0 <= i < place.components@.len() ==> #[trigger] place.deep_view().1[i]
                == place.components@[i]@,
{
}

} // verus!
