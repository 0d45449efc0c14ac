//! Tool availability probing: candidate executable names are tried in the
//! caller's preference order and the first one that resolves on the execution
//! path wins.  Whether a single name resolves is a fact about the environment
//! that the driver supplies; the choice among the candidates is decided here.

use vstd::prelude::*;
use vstd::string::StringExecFns;

verus! {

/// The first candidate marked as resolving, in order; `None` if none does.
pub open spec fn spec_first_resolved(cands: Seq<Seq<char>>, found: Seq<bool>) -> Option<Seq<char>>
    decreases cands.len(),
{
    if cands.len() == 0 {
        None
    } else if found[0] {
        Some(cands[0])
    } else {
        spec_first_resolved(cands.drop_first(), found.drop_first())
    }
}

proof fn lemma_first_resolved_skip(cands: Seq<Seq<char>>, found: Seq<bool>, i: int)
    requires
        cands.len() == found.len(),
        0 <= i < cands.len(),
        !found[i],
    ensures
        spec_first_resolved(cands.skip(i), found.skip(i)) == spec_first_resolved(
            cands.skip(i + 1),
            found.skip(i + 1),
        ),
{
    assert(cands.skip(i).drop_first() =~= cands.skip(i + 1));
    assert(found.skip(i).drop_first() =~= found.skip(i + 1));
}

/// Pick the first candidate that the environment reports as resolving.
/// `found[k]` says whether `candidates[k]` resolves on the execution path.
pub fn first_resolved(candidates: &Vec<String>, found: &Vec<bool>) -> (r: Option<String>)
    requires
        candidates@.len() == found@.len(),
    ensures
        r is Some <==> spec_first_resolved(candidates.deep_view(), found@) is Some,
        r matches Some(s) ==> s@ == spec_first_resolved(
            candidates.deep_view(),
            found@,
        ).arrow_Some_0(),
{
    let n = candidates.len();
    let mut i: usize = 0;
    proof {
        assert(candidates.deep_view().skip(0) =~= candidates.deep_view());
        assert(found@.skip(0) =~= found@);
    }
    while i < n
        invariant
            n == candidates@.len(),
            n == found@.len(),
            candidates.deep_view().len() == n,
            i <= n,
            spec_first_resolved(candidates.deep_view(), found@) == spec_first_resolved(
                candidates.deep_view().skip(i as int),
                found@.skip(i as int),
            ),
        decreases n - i,
    {
        if found[i] {
            assert(candidates.deep_view().skip(i as int)[0] == candidates.deep_view()[i as int]);
            return Some(candidates[i].clone());
        }
        proof {
            lemma_first_resolved_skip(candidates.deep_view(), found@, i as int);
        }
        i = i + 1;
    }
    assert(candidates.deep_view().skip(n as int).len() == 0);
    None
}

/// Candidate names for a Python interpreter, in preference order.
pub open spec fn python_executables() -> Seq<Seq<char>> {
    seq!["python3"@, "python"@]
}

/// Candidate names for a Node.js package manager, in preference order.
pub open spec fn node_package_managers() -> Seq<Seq<char>> {
    seq!["npm"@, "yarn"@, "pnpm"@]
}

/// The executable counterpart of [`python_executables`].
pub fn python_executable_names() -> (v: Vec<String>)
    ensures
        v.deep_view() == python_executables(),
{
    let mut v: Vec<String> = Vec::new();
    v.push(String::from_str("python3"));
    v.push(String::from_str("python"));
    proof {
        assert(v.deep_view() =~= python_executables());
    }
    v
}

/// The executable counterpart of [`node_package_managers`].
pub fn node_package_manager_names() -> (v: Vec<String>)
    ensures
        v.deep_view() == node_package_managers(),
{
    let mut v: Vec<String> = Vec::new();
    v.push(String::from_str("npm"));
    v.push(String::from_str("yarn"));
    v.push(String::from_str("pnpm"));
    proof {
        assert(v.deep_view() =~= node_package_managers());
    }
    v
}

/// Which Python interpreter is installed, given for each candidate of
/// [`python_executables`] whether it resolves on the execution path.
pub fn check_python_installed(found: &Vec<bool>) -> (r: Option<String>)
    requires
        found@.len() == python_executables().len(),
    ensures
        r is Some <==> spec_first_resolved(python_executables(), found@) is Some,
        r matches Some(s) ==> s@ == spec_first_resolved(python_executables(), found@).arrow_Some_0(),
{
    let candidates = python_executable_names();
    first_resolved(&candidates, found)
}

/// Same facts, same answer: the scaffolders ask this under its own name.
pub fn check_python(found: &Vec<bool>) -> (r: Option<String>)
    requires
        found@.len() == python_executables().len(),
    ensures
        r is Some <==> spec_first_resolved(python_executables(), found@) is Some,
        r matches Some(s) ==> s@ == spec_first_resolved(python_executables(), found@).arrow_Some_0(),
{
    check_python_installed(found)
}

/// Which Node.js package manager is installed, given for each candidate of
/// [`node_package_managers`] whether it resolves on the execution path.
pub fn check_node(found: &Vec<bool>) -> (r: Option<String>)
    requires
        found@.len() == node_package_managers().len(),
    ensures
        r is Some <==> spec_first_resolved(node_package_managers(), found@) is Some,
        r matches Some(s) ==> s@ == spec_first_resolved(node_package_managers(), found@).arrow_Some_0(),
{
    let candidates = node_package_manager_names();
    first_resolved(&candidates, found)
}

/// Language-specific executable names, one preference-ordered list per
/// toolchain.
pub struct TechExecutables {
    pub python: Vec<String>,
    pub node: Vec<String>,
    pub java: Vec<String>,
    pub ruby: Vec<String>,
    pub go: Vec<String>,
    pub php: Vec<String>,
    pub swift: Vec<String>,
    pub rust: Vec<String>,
}

fn one_name(s: &str) -> (v: Vec<String>)
    ensures
        v.deep_view() =~= seq![s@],
{
    let mut v: Vec<String> = Vec::new();
    v.push(String::from_str(s));
    v
}

impl Default for TechExecutables {
    /// The default executable names for the known toolchains.
    fn default() -> (r: TechExecutables)
        ensures
            r.python.deep_view() == python_executables(),
            r.node.deep_view() == seq!["node"@],
            r.java.deep_view() == seq!["javac"@],
            r.ruby.deep_view() == seq!["ruby"@],
            r.go.deep_view() == seq!["go"@],
            r.php.deep_view() == seq!["php"@],
            r.swift.deep_view() == seq!["swiftc"@],
            r.rust.deep_view() == seq!["rustc"@],
    {
        TechExecutables {
            python: python_executable_names(),
            node: one_name("node"),
            java: one_name("javac"),
            ruby: one_name("ruby"),
            go: one_name("go"),
            php: one_name("php"),
            swift: one_name("swiftc"),
            rust: one_name("rustc"),
        }
    }
}

} // verus!
