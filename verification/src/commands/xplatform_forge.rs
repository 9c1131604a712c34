//! XPlatform Forge: target platform names and per-platform builds.

use vstd::prelude::*;
use crate::clock::{new_id, start_timer, elapsed_millis, uuid_v4_text};
use crate::core_engine::{chars_of, CompilerTarget, CompileResult, PolyglotCompiler, SupportedLanguage, TargetPlatform};
use crate::history::{first_index, lemma_first_index};
use crate::text::{lowercase_of, to_lowercase, str_eq};

verus! {

/// A cross-platform build request.
#[derive(Debug, Clone)]
pub struct ForgeRequest {
    pub project_path: String,
    pub platforms: Vec<String>,
    pub optimisation: u8,
    pub sign: bool,
    pub notarise: bool,
}

/// The outcome of a build on one platform.
#[derive(Debug, Clone)]
pub struct PlatformBuildResult {
    pub platform: String,
    pub success: bool,
    pub artifact_path: Option<String>,
    pub duration_ms: u64,
    pub errors: Vec<String>,
    pub warnings: Vec<String>,
}

/// The outcome of a cross-platform build.
#[derive(Debug, Clone)]
pub struct ForgeResult {
    pub request_id: String,
    pub platform_results: Vec<PlatformBuildResult>,
    pub total_duration_ms: u64,
    pub overall_success: bool,
}

/// The platform a lower-case name stands for.
pub open spec fn platform_named(name: Seq<char>) -> Option<TargetPlatform> {
    if name == "windows"@ {
        Some(TargetPlatform::Windows)
    } else if name == "macos"@ || name == "mac"@ {
        Some(TargetPlatform::MacOs)
    } else if name == "linux"@ {
        Some(TargetPlatform::Linux)
    } else if name == "android"@ {
        Some(TargetPlatform::Android)
    } else if name == "ios"@ {
        Some(TargetPlatform::Ios)
    } else if name == "wasm"@ || name == "web"@ {
        Some(TargetPlatform::Wasm)
    } else {
        None
    }
}

/// The answer to a platform name that stands for no platform.
pub open spec fn unknown_platform_message(name: Seq<char>) -> Seq<char> {
    "Unknown platform: '"@ + name + "'. Supported: windows, macos, linux, android, ios, wasm"@
}

/// A platform name read case-insensitively.
pub open spec fn parsed_platform(name: Seq<char>) -> Result<TargetPlatform, Seq<char>> {
    match platform_named(lowercase_of(name)) {
        Some(p) => Ok(p),
        None => Err(unknown_platform_message(name)),
    }
}

/// The names that stand for no platform.
pub open spec fn unknown_platform() -> spec_fn(Seq<char>) -> bool {
    |name: Seq<char>| parsed_platform(name) is Err
}

/// The platforms a build request targets, or why it is refused: an empty
/// project path, no platform, or the first name that stands for none.
pub open spec fn forge_plan(project_path: Seq<char>, platforms: Seq<Seq<char>>) -> Result<Seq<TargetPlatform>, Seq<char>> {
    if project_path.len() == 0 {
        Err("Project path cannot be empty"@)
    } else if platforms.len() == 0 {
        Err("At least one target platform is required"@)
    } else if first_index(platforms, unknown_platform()) >= 0 {
        Err(unknown_platform_message(platforms[first_index(platforms, unknown_platform())]))
    } else {
        Ok(platforms.map_values(|name: Seq<char>| parsed_platform(name)->Ok_0))
    }
}

/// The warnings added to each platform's build for signing and notarising.
pub open spec fn forge_warnings(sign: bool, notarise: bool) -> Seq<Seq<char>> {
    (if sign { seq!["Signing requested but not yet implemented"@] } else { Seq::empty() })
        + (if notarise { seq!["Notarisation requested but not yet implemented"@] } else { Seq::empty() })
}

/// The platform a lower-case name stands for, if any.
pub fn platform_from_lowercase(name: &str) -> (r: Option<TargetPlatform>)
    ensures
        r == platform_named(name@),
{
    if str_eq(name, "windows") {
        Some(TargetPlatform::Windows)
    } else if str_eq(name, "macos") || str_eq(name, "mac") {
        Some(TargetPlatform::MacOs)
    } else if str_eq(name, "linux") {
        Some(TargetPlatform::Linux)
    } else if str_eq(name, "android") {
        Some(TargetPlatform::Android)
    } else if str_eq(name, "ios") {
        Some(TargetPlatform::Ios)
    } else if str_eq(name, "wasm") || str_eq(name, "web") {
        Some(TargetPlatform::Wasm)
    } else {
        None
    }
}

/// Reads a platform name, ignoring case.
pub fn parse_platform(s: &str) -> (r: Result<TargetPlatform, String>)
    ensures
        match r {
            Ok(p) => parsed_platform(s@) == Ok::<TargetPlatform, Seq<char>>(p),
            Err(e) => parsed_platform(s@) == Err::<TargetPlatform, Seq<char>>(e@),
        },
{
    let lower = to_lowercase(s);
    match platform_from_lowercase(lower.as_str()) {
        Some(p) => Ok(p),
        None => {
            let mut msg = String::from_str("Unknown platform: '");
            msg.append(s);
            msg.append("'. Supported: windows, macos, linux, android, ios, wasm");
            Err(msg)
        },
    }
}

/// Checks a build request and reads its platforms.
pub fn forge_targets(request: &ForgeRequest) -> (r: Result<Vec<TargetPlatform>, String>)
    ensures
        match r {
            Ok(v) => forge_plan(request.project_path@, chars_of(request.platforms@))
                == Ok::<Seq<TargetPlatform>, Seq<char>>(v@),
            Err(e) => forge_plan(request.project_path@, chars_of(request.platforms@))
                == Err::<Seq<TargetPlatform>, Seq<char>>(e@),
        },
{
    if request.project_path.as_str().is_empty() {
        return Err(String::from_str("Project path cannot be empty"));
    }
    if request.platforms.len() == 0 {
        return Err(String::from_str("At least one target platform is required"));
    }
    let ghost names = chars_of(request.platforms@);
    let ghost bad = unknown_platform();
    let mut out: Vec<TargetPlatform> = Vec::new();
    let mut i: usize = 0;
    while i < request.platforms.len()
        invariant
            names == chars_of(request.platforms@),
            bad == unknown_platform(),
            request.project_path@.len() > 0,
            request.platforms@.len() > 0,
            i <= request.platforms@.len(),
            out@.len() == i,
            forall|k: int| 0 <= k < i ==> !bad(#[trigger] names[k]),
            forall|k: int| 0 <= k < i ==> out@[k] == parsed_platform(#[trigger] names[k])->Ok_0,
        decreases request.platforms@.len() - i,
    {
        assert(names[i as int] == request.platforms@[i as int]@);
        match parse_platform(request.platforms[i].as_str()) {
            Ok(p) => {
                out.push(p);
            },
            Err(e) => {
                assert(bad(names[i as int]));
                proof { lemma_first_index(names, bad, i as int); }
                assert(e@ == unknown_platform_message(names[i as int]));
                return Err(e);
            },
        }
        i = i + 1;
    }
    proof {
        lemma_first_index(names, bad, i as int);
        assert(out@ =~= names.map_values(|name: Seq<char>| parsed_platform(name)->Ok_0));
    }
    Ok(out)
}

/// A platform's build outcome from the compiler's result, with the
/// warnings for the signing and notarising that were asked for.
pub fn platform_result(platform: String, result: CompileResult, sign: bool, notarise: bool) -> (r: PlatformBuildResult)
    ensures
        r.platform@ == platform@,
        r.success == result.success,
        r.artifact_path == result.output_path,
        r.duration_ms == result.duration_ms,
        r.errors@ == result.errors@,
        chars_of(r.warnings@) == chars_of(result.warnings@) + forge_warnings(sign, notarise),
{
    let mut warnings = result.warnings;
    let ghost before = warnings@;
    if sign {
        warnings.push(String::from_str("Signing requested but not yet implemented"));
    }
    let ghost middle = warnings@;
    if notarise {
        warnings.push(String::from_str("Notarisation requested but not yet implemented"));
    }
    assert(chars_of(warnings@) =~= chars_of(before) + forge_warnings(sign, notarise)) by {
        assert(chars_of(middle) =~= chars_of(before)
            + (if sign { seq!["Signing requested but not yet implemented"@] } else { Seq::empty() }));
    }
    PlatformBuildResult {
        platform,
        success: result.success,
        artifact_path: result.output_path,
        duration_ms: result.duration_ms,
        errors: result.errors,
        warnings,
    }
}

/// A relative path component with no prefix or root: not empty, and
/// without `/`, `\` or `:`.
pub open spec fn simple_component(s: Seq<char>) -> bool {
    &&& s.len() > 0
    &&& forall|i: int| 0 <= i < s.len() ==> {
        let c = #[trigger] s[i];
        c != '/' && c != '\\' && c != ':'
    }
}

/// A Windows verbatim path: one that starts `\\?\`.
pub open spec fn verbatim(s: Seq<char>) -> bool {
    s.len() >= 4 && s[0] == '\\' && s[1] == '\\' && s[2] == '?' && s[3] == '\\'
}

/// A verbatim path whose prefix is all there is: `\\?\` and one simple
/// component after it.
pub open spec fn verbatim_prefix_only(s: Seq<char>) -> bool {
    verbatim(s) && simple_component(s.subrange(4, s.len() as int))
}

/// A simple component that is not `.` or `..`.
pub open spec fn plain_component(s: Seq<char>) -> bool {
    simple_component(s) && s != "."@ && s != ".."@
}

/// The three characters `\\?`, which become a verbatim prefix once a
/// separator follows them.
pub open spec fn verbatim_stem(p: Seq<char>) -> bool {
    p.len() == 3 && p[0] == '\\' && p[1] == '\\' && p[2] == '?'
}

/// Whether `<project>/dist/<name>` is known to be how the two joins render:
/// the project path is not verbatim and the name is a simple component
/// (and, under the bare verbatim stem, neither `.` nor `..`).
pub open spec fn artifact_path_known(project: Seq<char>, name: Seq<char>) -> bool {
    &&& !verbatim(project)
    &&& simple_component(name)
    &&& verbatim_stem(project) ==> plain_component(name)
}

/// Nothing, or one path separator (`/`, or `\` on Windows).
pub open spec fn separator_or_none(m: Seq<char>) -> bool {
    m.len() == 0 || (m.len() == 1 && (m[0] == '/' || m[0] == '\\'))
}

/// One path separator: `/`, or `\` on Windows.
pub open spec fn one_separator(m: Seq<char>) -> bool {
    m.len() == 1 && (m[0] == '/' || m[0] == '\\')
}

/// Two characters ending in `:`, which Windows reads as a bare drive (`C:`).
pub open spec fn drive_like(base: Seq<char>) -> bool {
    base.len() == 2 && base[1] == ':'
}

/// What a path join puts between `base` and a relative part: nothing after
/// an empty base or one that ends in `/`; one separator after a base that
/// ends in neither `/` nor `\` and is not a bare drive; and after a base
/// that ends in `\` (a separator on Windows only) or a bare drive (one only
/// on Windows), nothing or one separator.
pub open spec fn join_gap(base: Seq<char>, m: Seq<char>) -> bool {
    if base.len() == 0 || base.last() == '/' {
        m.len() == 0
    } else if base.last() != '\\' && !drive_like(base) {
        one_separator(m)
    } else {
        separator_or_none(m)
    }
}

/// `path` is `base` extended by `part`, with the separator that a join
/// puts between them.
pub open spec fn extends_path(base: Seq<char>, part: Seq<char>, path: Seq<char>) -> bool {
    exists|m: Seq<char>| join_gap(base, m) && path == base + m + part
}

/// `path` is `<base>/dist/<name>`, with the machine's separator.
pub open spec fn dist_artifact(base: Seq<char>, name: Seq<char>, path: Seq<char>) -> bool {
    exists|m1: Seq<char>, m2: Seq<char>|
        join_gap(base, m1) && one_separator(m2) && path == base + m1 + "dist"@ + m2 + name
}

/// Calls `std::path::Path::join` on `base` with `part` (both valid UTF-8,
/// so `to_string_lossy` renders the path unchanged). Its documentation
/// says the result adjoins `part` to `base`: `PathBuf::push` extends the
/// path, adding the separator when one is missing, and replaces it only
/// for an absolute `part` or one with a prefix; a Windows verbatim base
/// (which starts `\\?\`) is normalised. So for a part with no prefix or
/// root and a base that is not verbatim the result is `base`, the gap that
/// `join_gap` describes, and `part`: `push` adds `MAIN_SEPARATOR` exactly
/// when the base is not empty, does not end in a separator (`/`, and on
/// Windows also `\`) and is not a bare Windows drive. A verbatim base is
/// normalised (`.` and `..` dropped) before the part is added; where the
/// base is the bare prefix `\\?\<component>` and the part is a plain
/// component, that leaves the same shape. Otherwise only that the result
/// is not empty when an argument is not.
/// Which separator comes (`/` on Unix, `\` on Windows) depends on the
/// machine and is not stated.
#[verifier::external_body]
fn join_path(base: &str, part: &str) -> (p: String)
    ensures
        base@.len() > 0 || part@.len() > 0 ==> p@.len() > 0,
        simple_component(part@) && !verbatim(base@) ==> extends_path(base@, part@, p@),
        plain_component(part@) && verbatim_prefix_only(base@) ==> extends_path(base@, part@, p@),
{
    std::path::Path::new(base).join(part).to_string_lossy().to_string()
}

/// The path of a platform's build: `dist/<name>` under the project.
fn dist_path(base: &str, name: &str) -> (p: String)
    ensures
        p@.len() > 0,
        artifact_path_known(base@, name@) ==> dist_artifact(base@, name@, p@),
{
    let dist = join_path(base, "dist");
    proof {
        reveal_strlit("dist");
        reveal_strlit(".");
        reveal_strlit("..");
        assert("dist"@.len() == 4);
        assert(simple_component("dist"@));
        assert(plain_component("dist"@));
        if !verbatim(base@) {
            let m1 = choose|m: Seq<char>| join_gap(base@, m) && dist@ == base@ + m + "dist"@;
            let d = dist@;
            if d.len() >= 4 && d[2] == '?' {
                if base@.len() >= 4 {
                    assert(d[0] == base@[0] && d[1] == base@[1] && d[2] == base@[2] && d[3] == base@[3]);
                } else if base@.len() == 3 {
                    assert(d[0] == base@[0] && d[1] == base@[1] && d[2] == base@[2]);
                    if m1.len() == 1 {
                        assert(d[3] == m1[0]);
                        if verbatim(d) {
                            assert(verbatim_stem(base@));
                            assert(d == base@ + m1 + "dist"@);
                            assert(d.subrange(4, d.len() as int) =~= "dist"@);
                            assert(verbatim_prefix_only(d));
                        }
                    } else {
                        assert(d[3] == "dist"@[0]);
                    }
                } else if base@.len() == 2 {
                    if m1.len() == 1 {
                        assert(d[2] == m1[0]);
                    } else {
                        assert(d[2] == "dist"@[0]);
                    }
                } else if base@.len() == 1 {
                    if m1.len() == 1 {
                        assert(d[2] == "dist"@[0]);
                    } else {
                        assert(d[2] == "dist"@[1]);
                    }
                } else {
                    if m1.len() == 1 {
                        assert(d[2] == "dist"@[1]);
                    } else {
                        assert(d[2] == "dist"@[2]);
                    }
                }
            }
            assert(verbatim(d) ==> verbatim_stem(base@) && verbatim_prefix_only(d));
        }
    }
    let p = join_path(dist.as_str(), name);
    proof {
        if artifact_path_known(base@, name@) {
            let m1 = choose|m: Seq<char>| join_gap(base@, m) && dist@ == base@ + m + "dist"@;
            assert(dist@.last() == 't') by {
                assert(dist@[dist@.len() - 1] == "dist"@[3]);
            }
            assert(extends_path(dist@, name@, p@));
            let m2 = choose|m: Seq<char>| join_gap(dist@, m) && p@ == dist@ + m + name@;
            assert(one_separator(m2));
            assert(p@ == base@ + m1 + "dist"@ + m2 + name@);
        }
    }
    p
}

/// Builds the project for every platform of the request. A refused request
/// is answered as `forge_plan` says; otherwise every platform builds into
/// `dist/<platform>` under the project, in the order asked. (Outside
/// `artifact_path_known`, that is for a Windows verbatim project path or a
/// platform name holding a separator or `:`, the artifact path depends on
/// how the machine joins paths and is only known to be present.)
pub fn forge_build(request: ForgeRequest) -> (r: Result<ForgeResult, String>)
    ensures
        match (r, forge_plan(request.project_path@, chars_of(request.platforms@))) {
            (Err(e), Err(m)) => e@ == m,
            (Ok(f), Ok(_)) => {
                &&& uuid_v4_text(f.request_id@)
                &&& f.platform_results@.len() == request.platforms@.len()
                &&& forall|i: int| 0 <= i < f.platform_results@.len() ==> {
                    let p = #[trigger] f.platform_results@[i];
                    &&& p.platform@ == request.platforms@[i]@
                    &&& p.success
                    &&& p.artifact_path is Some
                    &&& (artifact_path_known(request.project_path@, request.platforms@[i]@)
                        ==> dist_artifact(request.project_path@, request.platforms@[i]@, p.artifact_path->Some_0@))
                    &&& p.errors@.len() == 0
                    &&& chars_of(p.warnings@) == forge_warnings(request.sign, request.notarise)
                }
                &&& f.overall_success
            },
            _ => false,
        },
{
    let platforms = match forge_targets(&request) {
        Ok(v) => v,
        Err(e) => {
            return Err(e);
        },
    };
    let start = start_timer();
    let request_id = new_id();
    let mut results: Vec<PlatformBuildResult> = Vec::new();
    let mut i: usize = 0;
    while i < platforms.len()
        invariant
            platforms@.len() == request.platforms@.len(),
            request.project_path@.len() > 0,
            i <= platforms@.len(),
            results@.len() == i,
            forall|k: int| 0 <= k < i ==> {
                let p = #[trigger] results@[k];
                &&& p.platform@ == request.platforms@[k]@
                &&& p.success
                &&& p.artifact_path is Some
                &&& (artifact_path_known(request.project_path@, request.platforms@[k]@)
                    ==> dist_artifact(request.project_path@, request.platforms@[k]@, p.artifact_path->Some_0@))
                &&& p.errors@.len() == 0
                &&& chars_of(p.warnings@) == forge_warnings(request.sign, request.notarise)
            },
        decreases platforms@.len() - i,
    {
        let name = &request.platforms[i];
        let mut id = request_id.clone();
        id.append("-");
        id.append(name.as_str());
        let target = CompilerTarget {
            id,
            language: SupportedLanguage::Rust,
            source_path: request.project_path.clone(),
            output_path: dist_path(request.project_path.as_str(), name.as_str()),
            optimisation_level: request.optimisation,
            target_platforms: vec![platforms[i]],
        };
        match PolyglotCompiler::compile(target) {
            Ok(result) => {
                assert(chars_of(result.warnings@) =~= Seq::<Seq<char>>::empty());
                results.push(platform_result(name.clone(), result, request.sign, request.notarise));
            },
            Err(e) => {
                results.push(PlatformBuildResult {
                    platform: name.clone(),
                    success: false,
                    artifact_path: None,
                    duration_ms: 0,
                    errors: vec![e],
                    warnings: Vec::new(),
                });
            },
        }
        i = i + 1;
    }
    let mut overall_success = true;
    let mut k: usize = 0;
    while k < results.len()
        invariant
            k <= results@.len(),
            overall_success == forall|j: int| 0 <= j < k ==> (#[trigger] results@[j]).success,
        decreases results@.len() - k,
    {
        overall_success = overall_success && results[k].success;
        k = k + 1;
    }
    let total_duration_ms = elapsed_millis(&start);
    Ok(ForgeResult { request_id, platform_results: results, total_duration_ms, overall_success })
}

/// The platform names a build can target.
pub fn forge_list_platforms() -> (r: Vec<String>)
    ensures
        chars_of(r@) == seq!["windows"@, "macos"@, "linux"@, "android"@, "ios"@, "wasm"@],
{
    let r = vec![
        String::from_str("windows"),
        String::from_str("macos"),
        String::from_str("linux"),
        String::from_str("android"),
        String::from_str("ios"),
        String::from_str("wasm"),
    ];
    assert(chars_of(r@) =~= seq!["windows"@, "macos"@, "linux"@, "android"@, "ios"@, "wasm"@]);
    r
}

} // verus!
