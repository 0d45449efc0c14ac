//! Technology classification: a free-form technology string is mapped,
//! case-insensitively, to a known scaffolding strategy, or heuristically to an
//! ecosystem by substring match against a table of well-known package names,
//! or to no strategy at all.

use vstd::prelude::*;

use crate::text::{contains_ci, eq_ci, str_contains_ci, str_eq_ci};

verus! {

/// A technology family sharing one generator or package-manager toolchain.
#[derive(Clone, Copy, Debug, PartialEq, Eq, Structural)]
pub enum Ecosystem {
    Python,
    Js,
    Compiled,
}

/// One concrete scaffolding strategy from the exact technology table.
#[derive(Clone, Copy, Debug, PartialEq, Eq, Structural)]
pub enum Strategy {
    Django,
    Flask,
    FastApi,
    Pyramid,
    PythonGeneric,
    React,
    Vue,
    Svelte,
    NodeExpress,
    NextJs,
    Nuxt,
    RustCrate,
}

/// What the classifier decided for a technology string.
#[derive(Clone, Copy, Debug, PartialEq, Eq, Structural)]
pub enum Classification {
    Known(Strategy),
    Heuristic(Ecosystem),
    Unknown,
}

/// The ecosystem each strategy belongs to.
pub open spec fn ecosystem_of(s: Strategy) -> Ecosystem {
    match s {
        Strategy::Django => Ecosystem::Python,
        Strategy::Flask => Ecosystem::Python,
        Strategy::FastApi => Ecosystem::Python,
        Strategy::Pyramid => Ecosystem::Python,
        Strategy::PythonGeneric => Ecosystem::Python,
        Strategy::React => Ecosystem::Js,
        Strategy::Vue => Ecosystem::Js,
        Strategy::Svelte => Ecosystem::Js,
        Strategy::NodeExpress => Ecosystem::Js,
        Strategy::NextJs => Ecosystem::Js,
        Strategy::Nuxt => Ecosystem::Js,
        Strategy::RustCrate => Ecosystem::Compiled,
    }
}

/// Well-known Python package names used for heuristic classification.
pub open spec fn python_package_names() -> Seq<Seq<char>> {
    seq![
        "numpy"@, "pandas"@, "matplotlib"@, "scipy"@, "scikit-learn"@, "sklearn"@,
        "tensorflow"@, "torch"@, "pytorch"@, "keras"@, "opencv"@, "cv2"@, "requests"@,
        "aiohttp"@, "celery"@, "redis"@, "sqlalchemy"@, "jupyter"@, "notebook"@,
        "streamlit"@, "gradio"@,
    ]
}

/// Well-known Node.js package names used for heuristic classification.
pub open spec fn node_package_names() -> Seq<Seq<char>> {
    seq![
        "express"@, "koa"@, "fastify"@, "hapi"@, "socket.io"@, "ws"@, "axios"@,
        "lodash"@, "moment"@, "chalk"@, "commander"@, "inquirer"@, "jest"@, "mocha"@,
        "webpack"@, "rollup"@, "eslint"@, "prettier"@, "typescript"@, "babel"@,
        "angular"@, "ember"@,
    ]
}

/// The technology string mentions one of the given package names.
pub open spec fn mentions_one_of(tech: Seq<char>, table: Seq<Seq<char>>) -> bool {
    exists|k: int| 0 <= k < table.len() && contains_ci(tech, table[k])
}

/// The exact classification table plus the two heuristics, tried in order.
pub open spec fn spec_classify(t: Seq<char>) -> Classification {
    if eq_ci(t, "django"@) {
        Classification::Known(Strategy::Django)
    } else if eq_ci(t, "flask"@) {
        Classification::Known(Strategy::Flask)
    } else if eq_ci(t, "fastapi"@) {
        Classification::Known(Strategy::FastApi)
    } else if eq_ci(t, "pyramid"@) {
        Classification::Known(Strategy::Pyramid)
    } else if eq_ci(t, "python"@) {
        Classification::Known(Strategy::PythonGeneric)
    } else if eq_ci(t, "react"@) {
        Classification::Known(Strategy::React)
    } else if eq_ci(t, "vue"@) {
        Classification::Known(Strategy::Vue)
    } else if eq_ci(t, "svelte"@) {
        Classification::Known(Strategy::Svelte)
    } else if eq_ci(t, "node"@) || eq_ci(t, "nodejs"@) || eq_ci(t, "express"@) {
        Classification::Known(Strategy::NodeExpress)
    } else if eq_ci(t, "nextjs"@) || eq_ci(t, "next"@) {
        Classification::Known(Strategy::NextJs)
    } else if eq_ci(t, "nuxt"@) {
        Classification::Known(Strategy::Nuxt)
    } else if eq_ci(t, "rust"@) {
        Classification::Known(Strategy::RustCrate)
    } else if mentions_one_of(t, python_package_names()) {
        Classification::Heuristic(Ecosystem::Python)
    } else if mentions_one_of(t, node_package_names()) {
        Classification::Heuristic(Ecosystem::Js)
    } else {
        Classification::Unknown
    }
}

/// The strategies whose generator creates the component directory itself
/// (under a name of the generator's choosing), so no directory is created for
/// them up front.
pub open spec fn spec_self_managed(c: Classification) -> bool {
    match c {
        Classification::Known(s) => match s {
            Strategy::Django => true,
            Strategy::React => true,
            Strategy::Vue => true,
            Strategy::Svelte => true,
            Strategy::NextJs => true,
            Strategy::Nuxt => true,
            _ => false,
        },
        _ => false,
    }
}

/// The executable Python package table; its entries are exactly
/// [`python_package_names`].
pub fn python_package_table() -> (t: Vec<&'static str>)
    ensures
        t.deep_view() == python_package_names(),
{
    let t: Vec<&'static str> = vec![
        "numpy", "pandas", "matplotlib", "scipy", "scikit-learn", "sklearn",
        "tensorflow", "torch", "pytorch", "keras", "opencv", "cv2", "requests",
        "aiohttp", "celery", "redis", "sqlalchemy", "jupyter", "notebook",
        "streamlit", "gradio",
    ];
    proof {
        assert(t.deep_view() =~= python_package_names());
    }
    t
}

/// The executable Node.js package table; its entries are exactly
/// [`node_package_names`].
pub fn node_package_table() -> (t: Vec<&'static str>)
    ensures
        t.deep_view() == node_package_names(),
{
    let t: Vec<&'static str> = vec![
        "express", "koa", "fastify", "hapi", "socket.io", "ws", "axios",
        "lodash", "moment", "chalk", "commander", "inquirer", "jest", "mocha",
        "webpack", "rollup", "eslint", "prettier", "typescript", "babel",
        "angular", "ember",
    ];
    proof {
        assert(t.deep_view() =~= node_package_names());
    }
    t
}

/// Does the technology string mention any entry of the table?
fn mentions_any(tech: &str, table: &Vec<&str>) -> (r: bool)
    ensures
        r == mentions_one_of(tech@, table.deep_view()),
{
    let mut k: usize = 0;
    while k < table.len()
        invariant
            k <= table@.len(),
            forall|j: int| 0 <= j < k ==> !contains_ci(tech@, table.deep_view()[j]),
        decreases table@.len() - k,
    {
        if str_contains_ci(tech, table[k]) {
            assert(contains_ci(tech@, table.deep_view()[k as int]));
            return true;
        }
        k = k + 1;
    }
    false
}

/// The technology string mentions a well-known Python package.
pub fn is_likely_python_package(tech: &str) -> (r: bool)
    ensures
        r == mentions_one_of(tech@, python_package_names()),
{
    let table = python_package_table();
    mentions_any(tech, &table)
}

/// The technology string mentions a well-known Node.js package.
pub fn is_likely_node_package(tech: &str) -> (r: bool)
    ensures
        r == mentions_one_of(tech@, node_package_names()),
{
    let table = node_package_table();
    mentions_any(tech, &table)
}

/// Classify a technology string: exact table first, then the Python heuristic,
/// then the Node.js heuristic, else no specific scaffolding.
pub fn classify(tech: &str) -> (c: Classification)
    ensures
        c == spec_classify(tech@),
{
    if str_eq_ci(tech, "django") {
        Classification::Known(Strategy::Django)
    } else if str_eq_ci(tech, "flask") {
        Classification::Known(Strategy::Flask)
    } else if str_eq_ci(tech, "fastapi") {
        Classification::Known(Strategy::FastApi)
    } else if str_eq_ci(tech, "pyramid") {
        Classification::Known(Strategy::Pyramid)
    } else if str_eq_ci(tech, "python") {
        Classification::Known(Strategy::PythonGeneric)
    } else if str_eq_ci(tech, "react") {
        Classification::Known(Strategy::React)
    } else if str_eq_ci(tech, "vue") {
        Classification::Known(Strategy::Vue)
    } else if str_eq_ci(tech, "svelte") {
        Classification::Known(Strategy::Svelte)
    } else if str_eq_ci(tech, "node") || str_eq_ci(tech, "nodejs") || str_eq_ci(tech, "express") {
        Classification::Known(Strategy::NodeExpress)
    } else if str_eq_ci(tech, "nextjs") || str_eq_ci(tech, "next") {
        Classification::Known(Strategy::NextJs)
    } else if str_eq_ci(tech, "nuxt") {
        Classification::Known(Strategy::Nuxt)
    } else if str_eq_ci(tech, "rust") {
        Classification::Known(Strategy::RustCrate)
    } else if is_likely_python_package(tech) {
        Classification::Heuristic(Ecosystem::Python)
    } else if is_likely_node_package(tech) {
        Classification::Heuristic(Ecosystem::Js)
    } else {
        Classification::Unknown
    }
}

/// Executable test for [`spec_self_managed`].
pub fn is_self_managed(c: Classification) -> (r: bool)
    ensures
        r == spec_self_managed(c),
{
    match c {
        Classification::Known(s) => match s {
            Strategy::Django => true,
            Strategy::React => true,
            Strategy::Vue => true,
            Strategy::Svelte => true,
            Strategy::NextJs => true,
            Strategy::Nuxt => true,
            _ => false,
        },
        _ => false,
    }
}

} // verus!
