//! Choosing the files the tool runs: the Playwright runtime script, the
//! Node binary and the bundled skill directory, among probed candidates.
use vstd::prelude::*;
use vstd::string::*;
use crate::fspath::{ancestors, join_each, lemma_ancestors_chain, join_path, parent_path, path_join, path_parent, push_under_ancestors};

verus! {

/// A candidate path and whether a file was found there.
pub struct PathProbe {
    /// The candidate.
    pub path: String,
    /// A file exists at the candidate (for a directory: its marker file).
    pub is_file: bool,
}

/// `i` is the first candidate where a file was found.
pub open spec fn is_first_found(ps: Seq<PathProbe>, i: int) -> bool {
    &&& 0 <= i < ps.len()
    &&& ps[i].is_file
    &&& forall|j: int| 0 <= j < i ==> !ps[j].is_file
}

/// The position of the first candidate where a file was found, if any.
pub fn first_found(probes: &Vec<PathProbe>) -> (found: Option<usize>)
    ensures
        match found {
            Some(i) => is_first_found(probes@, i as int),
            None => forall|j: int| 0 <= j < probes@.len() ==> !probes@[j].is_file,
        },
{
    let mut i: usize = 0;
    while i < probes.len()
        invariant
            i <= probes@.len(),
            forall|j: int| 0 <= j < i ==> !probes@[j].is_file,
        decreases probes@.len() - i,
    {
        if probes[i].is_file {
            return Some(i);
        }
        i = i + 1;
    }
    None
}

/// Why no runtime script was chosen.
pub enum RuntimeScriptError {
    /// The script named by `AGENT_BROWSER_PLAYWRIGHT_RUNTIME` is not a file.
    ExplicitMissing(String),
    /// None of the usual places holds the script.
    NotFound,
}

/// The message of a runtime-script error.
pub open spec fn runtime_script_error_message(e: RuntimeScriptError) -> Seq<char> {
    match e {
        RuntimeScriptError::ExplicitMissing(p) => "AGENT_BROWSER_PLAYWRIGHT_RUNTIME 指向的文件不存在: "@ + p@,
        RuntimeScriptError::NotFound => "找不到 Playwright runtime；设置 AGENT_BROWSER_PLAYWRIGHT_RUNTIME 或安装包含 runtime/playwright 的完整包"@,
    }
}

impl RuntimeScriptError {
    /// The message shown for the error.
    pub fn message(&self) -> (text: String)
        ensures
            text@ == runtime_script_error_message(*self),
    {
        match self {
            RuntimeScriptError::ExplicitMissing(p) => {
                let mut text = "AGENT_BROWSER_PLAYWRIGHT_RUNTIME 指向的文件不存在: ".to_owned();
                text.append(p.as_str());
                text
            },
            RuntimeScriptError::NotFound => "找不到 Playwright runtime；设置 AGENT_BROWSER_PLAYWRIGHT_RUNTIME 或安装包含 runtime/playwright 的完整包".to_owned(),
        }
    }
}

/// Chooses the runtime script. A script named explicitly is the only one
/// considered: it is chosen when it is a file, and its absence is an error.
/// Otherwise the first candidate that is a file is chosen, in the order
/// given; with none the script is not found.
pub fn resolve_runtime_script(explicit: Option<PathProbe>, candidates: &Vec<PathProbe>) -> (r: Result<String, RuntimeScriptError>)
    ensures
        match explicit {
            Some(p) => match r {
                Ok(s) => p.is_file && s@ == p.path@,
                Err(RuntimeScriptError::ExplicitMissing(q)) => !p.is_file && q@ == p.path@,
                Err(RuntimeScriptError::NotFound) => false,
            },
            None => match r {
                Ok(s) => exists|i: int| is_first_found(candidates@, i) && s@ == candidates@[i].path@,
                Err(RuntimeScriptError::NotFound) => forall|j: int|
                    0 <= j < candidates@.len() ==> !candidates@[j].is_file,
                Err(RuntimeScriptError::ExplicitMissing(_)) => false,
            },
        },
{
    match explicit {
        Some(p) => {
            if p.is_file {
                Ok(p.path)
            } else {
                Err(RuntimeScriptError::ExplicitMissing(p.path))
            }
        },
        None => match first_found(candidates) {
            Some(i) => Ok(candidates[i].path.clone()),
            None => Err(RuntimeScriptError::NotFound),
        },
    }
}

/// Chooses the Node binary: the one named explicitly, else the bundled one
/// when it is a file, else `node` from the search path.
pub fn resolve_node_binary(explicit: Option<String>, bundled: PathProbe) -> (node: String)
    ensures
        match explicit {
            Some(e) => node@ == e@,
            None => if bundled.is_file {
                node@ == bundled.path@
            } else {
                node@ == "node"@
            },
        },
{
    match explicit {
        Some(e) => e,
        None => if bundled.is_file {
            bundled.path
        } else {
            "node".to_owned()
        },
    }
}

/// The message when no bundled skill directory is found.
pub open spec fn skill_source_missing_message() -> Seq<char> {
    "找不到内置 skill 目录 skills/agent-browser-cli"@
}

/// Chooses the bundled skill directory: the first candidate holding a
/// `SKILL.md` file; with none the error message is returned.
pub fn resolve_skill_source(candidates: &Vec<PathProbe>) -> (r: Result<String, String>)
    ensures
        match r {
            Ok(s) => exists|i: int| is_first_found(candidates@, i) && s@ == candidates@[i].path@,
            Err(m) => m@ == skill_source_missing_message() && forall|j: int|
                0 <= j < candidates@.len() ==> !candidates@[j].is_file,
        },
{
    match first_found(candidates) {
        Some(i) => Ok(candidates[i].path.clone()),
        None => Err("找不到内置 skill 目录 skills/agent-browser-cli".to_owned()),
    }
}

/// Where the runtime script lies inside a package.
pub open spec fn runtime_rel() -> Seq<char> {
    "runtime/playwright/src/runtime.mjs"@
}

/// How many ancestors of the program's own path are searched.
pub const EXE_ANCESTORS: usize = 8;

/// The places searched for the runtime script, in order: inside the
/// package directory and inside its parent, when a package directory is
/// given; inside the working directory; inside the program's path and each
/// of its first ancestors.
pub open spec fn runtime_candidates(
    package_dir: Option<Seq<char>>,
    cwd: Option<Seq<char>>,
    exe: Option<Seq<char>>,
) -> Seq<Seq<char>> {
    let package_part = match package_dir {
        Some(p) => seq![path_join(p, runtime_rel())] + match path_parent(p) {
            Some(q) => seq![path_join(q, runtime_rel())],
            None => Seq::empty(),
        },
        None => Seq::empty(),
    };
    let cwd_part = match cwd {
        Some(c) => seq![path_join(c, runtime_rel())],
        None => Seq::empty(),
    };
    let exe_part = match exe {
        Some(e) => join_each(ancestors(e, EXE_ANCESTORS as nat), runtime_rel()),
        None => Seq::empty(),
    };
    package_part + cwd_part + exe_part
}

/// The text of an optional string argument.
pub open spec fn opt_view(value: Option<&str>) -> Option<Seq<char>> {
    match value {
        Some(v) => Some(v@),
        None => None,
    }
}

/// The places searched for the runtime script, given the package directory
/// (`AGENT_BROWSER_CLI_PACKAGE_DIR`), the working directory and the path of
/// the program, each when known.
pub fn runtime_script_candidates(package_dir: Option<&str>, cwd: Option<&str>, exe: Option<&str>) -> (candidates: Vec<String>)
    ensures
        candidates@.map_values(|s: String| s@) == runtime_candidates(
            opt_view(package_dir),
            opt_view(cwd),
            opt_view(exe),
        ),
{
    let rel = "runtime/playwright/src/runtime.mjs";
    let mut candidates: Vec<String> = Vec::new();
    match package_dir {
        Some(p) => {
            candidates.push(join_path(p, rel));
            match parent_path(p) {
                Some(q) => {
                    candidates.push(join_path(q.as_str(), rel));
                },
                None => {},
            }
        },
        None => {},
    }
    let ghost after_package = candidates@.map_values(|s: String| s@);
    match cwd {
        Some(c) => {
            candidates.push(join_path(c, rel));
        },
        None => {},
    }
    let ghost after_cwd = candidates@.map_values(|s: String| s@);
    match exe {
        Some(e) => {
            push_under_ancestors(&mut candidates, e, EXE_ANCESTORS, rel);
        },
        None => {},
    }
    proof {
        reveal_strlit("runtime/playwright/src/runtime.mjs");
        let package_part = match opt_view(package_dir) {
            Some(p) => seq![path_join(p, runtime_rel())] + match path_parent(p) {
                Some(q) => seq![path_join(q, runtime_rel())],
                None => Seq::empty(),
            },
            None => Seq::empty(),
        };
        assert(after_package =~= package_part);
        let cwd_part = match opt_view(cwd) {
            Some(c) => seq![path_join(c, runtime_rel())],
            None => Seq::empty(),
        };
        assert(after_cwd =~= package_part + cwd_part);
    }
    assert(candidates@.map_values(|s: String| s@) =~= runtime_candidates(
        opt_view(package_dir),
        opt_view(cwd),
        opt_view(exe),
    ));
    candidates
}

/// Where a bundled Node binary lies below the runtime's root directory.
pub open spec fn node_rel(windows: bool) -> Seq<char> {
    if windows {
        "node/node.exe"@
    } else {
        "node/bin/node"@
    }
}

/// The bundled Node binary: below the directory two levels above the
/// runtime script, or below `.` when the script has no such directory.
pub open spec fn bundled_node(runtime_script: Seq<char>, windows: bool) -> Seq<char> {
    let root = match path_parent(runtime_script) {
        Some(dir) => match path_parent(dir) {
            Some(r) => r,
            None => "."@,
        },
        None => "."@,
    };
    path_join(root, node_rel(windows))
}

/// The path of the bundled Node binary for a runtime script, on Windows
/// (`windows`) or elsewhere.
pub fn bundled_node_path(runtime_script: &str, windows: bool) -> (node: String)
    ensures
        node@ == bundled_node(runtime_script@, windows),
{
    let root: String = match parent_path(runtime_script) {
        Some(dir) => match parent_path(dir.as_str()) {
            Some(r) => r,
            None => ".".to_owned(),
        },
        None => ".".to_owned(),
    };
    let rel = if windows {
        "node/node.exe"
    } else {
        "node/bin/node"
    };
    join_path(root.as_str(), rel)
}

/// Where the bundled skill lies inside a package.
pub open spec fn skill_rel() -> Seq<char> {
    "skills/agent-browser-cli"@
}

/// How many ancestors of the program's own path are searched for the
/// skill.
pub const SKILL_EXE_ANCESTORS: usize = 6;

/// The places searched for the bundled skill, in order: inside the package
/// directory, when given; inside the program's path and each of its first
/// ancestors; inside the working directory.
pub open spec fn skill_candidates(
    package_dir: Option<Seq<char>>,
    exe: Option<Seq<char>>,
    cwd: Option<Seq<char>>,
) -> Seq<Seq<char>> {
    let package_part = match package_dir {
        Some(p) => seq![path_join(p, skill_rel())],
        None => Seq::empty(),
    };
    let exe_part = match exe {
        Some(e) => join_each(ancestors(e, SKILL_EXE_ANCESTORS as nat), skill_rel()),
        None => Seq::empty(),
    };
    let cwd_part = match cwd {
        Some(c) => seq![path_join(c, skill_rel())],
        None => Seq::empty(),
    };
    package_part + exe_part + cwd_part
}

/// The places searched for the bundled skill, given the package directory
/// (`AGENT_BROWSER_CLI_PACKAGE_DIR`), the path of the program and the
/// working directory, each when known.
pub fn skill_source_candidates(package_dir: Option<&str>, exe: Option<&str>, cwd: Option<&str>) -> (candidates: Vec<String>)
    ensures
        candidates@.map_values(|s: String| s@) == skill_candidates(
            opt_view(package_dir),
            opt_view(exe),
            opt_view(cwd),
        ),
{
    let rel = "skills/agent-browser-cli";
    let mut candidates: Vec<String> = Vec::new();
    match package_dir {
        Some(p) => {
            candidates.push(join_path(p, rel));
        },
        None => {},
    }
    let ghost after_package = candidates@.map_values(|s: String| s@);
    match exe {
        Some(e) => {
            push_under_ancestors(&mut candidates, e, SKILL_EXE_ANCESTORS, rel);
        },
        None => {},
    }
    let ghost after_exe = candidates@.map_values(|s: String| s@);
    match cwd {
        Some(c) => {
            candidates.push(join_path(c, rel));
        },
        None => {},
    }
    proof {
        reveal_strlit("skills/agent-browser-cli");
        let package_part = match opt_view(package_dir) {
            Some(p) => seq![path_join(p, skill_rel())],
            None => Seq::<Seq<char>>::empty(),
        };
        assert(after_package =~= package_part);
        let exe_part = match opt_view(exe) {
            Some(e) => join_each(ancestors(e, SKILL_EXE_ANCESTORS as nat), skill_rel()),
            None => Seq::empty(),
        };
        assert(after_exe =~= package_part + exe_part);
    }
    assert(candidates@.map_values(|s: String| s@) =~= skill_candidates(
        opt_view(package_dir),
        opt_view(exe),
        opt_view(cwd),
    ));
    candidates
}

/// The runtime script is looked for first inside the package directory and
/// then inside its parent, then inside the working directory, then inside
/// the program's path and its ancestors, at
/// `runtime/playwright/src/runtime.mjs` below each.
pub proof fn lemma_runtime_candidates_order(
    package_dir: Option<Seq<char>>,
    cwd: Option<Seq<char>>,
    exe: Option<Seq<char>>,
)
    ensures
        ({
            let cs = runtime_candidates(package_dir, cwd, exe);
            let rel = "runtime/playwright/src/runtime.mjs"@;
            let np: int = match package_dir {
                Some(p) => if path_parent(p) is Some { 2int } else { 1int },
                None => 0int,
            };
            let nc: int = if cwd is Some { 1int } else { 0int };
            let ne: int = match exe {
                Some(e) => ancestors(e, 8).len() as int,
                None => 0int,
            };
            &&& cs.len() == np + nc + ne
            &&& ne <= 8
            &&& (package_dir matches Some(p) ==> cs[0] == path_join(p, rel))
            &&& (package_dir matches Some(p) ==> (path_parent(p) matches Some(q) ==> cs[1]
                == path_join(q, rel)))
            &&& (cwd matches Some(c) ==> cs[np] == path_join(c, rel))
            &&& (exe matches Some(e) ==> forall|k: int|
                0 <= k < ne ==> #[trigger] cs[np + nc + k] == path_join(ancestors(e, 8)[k], rel))
        }),
{
    reveal_strlit("runtime/playwright/src/runtime.mjs");
    match exe {
        Some(e) => lemma_ancestors_chain(e, 8),
        None => {},
    }
}

/// The bundled Node binary lies at `node/bin/node` (on Windows
/// `node/node.exe`) below the directory two levels above the runtime script,
/// or below `.` when the script has no such directory.
pub proof fn lemma_bundled_node_place(script: Seq<char>, windows: bool)
    ensures
        ({
            let rel = if windows { "node/node.exe"@ } else { "node/bin/node"@ };
            match path_parent(script) {
                Some(dir) => match path_parent(dir) {
                    Some(root) => bundled_node(script, windows) == path_join(root, rel),
                    None => bundled_node(script, windows) == path_join("."@, rel),
                },
                None => bundled_node(script, windows) == path_join("."@, rel),
            }
        }),
{
}

} // verus!
