//! The table of technologies the tool advertises, each with a display name
//! and the aliases it is recognised under.

use vstd::prelude::*;
use vstd::string::StringExecFns;

use crate::text::{eq_ci, str_eq_ci};

verus! {

/// A technology entry: a display name and its recognised aliases.
pub struct Tech {
    pub name: String,
    pub aliases: Vec<String>,
}

/// The mathematical content of a [`Tech`] entry.
pub ghost struct TechModel {
    pub name: Seq<char>,
    pub aliases: Seq<Seq<char>>,
}

impl View for Tech {
    type V = TechModel;

    open spec fn view(&self) -> TechModel {
        TechModel { name: self.name@, aliases: self.aliases.deep_view() }
    }
}

/// The entry the table holds for a technology string, compared
/// case-insensitively.
pub open spec fn spec_from_name(s: Seq<char>) -> Option<TechModel> {
    if eq_ci(s, "rust"@) {
        Some(TechModel { name: "Rust"@, aliases: seq!["rust"@, "rs"@] })
    } else if eq_ci(s, "python"@) {
        Some(TechModel { name: "Python"@, aliases: seq!["python"@, "py"@, "python3"@] })
    } else if eq_ci(s, "node"@) || eq_ci(s, "nodejs"@) {
        Some(TechModel { name: "Node.js"@, aliases: seq!["node"@, "nodejs"@, "js"@] })
    } else if eq_ci(s, "react"@) {
        Some(TechModel { name: "React"@, aliases: seq!["react"@, "reactjs"@] })
    } else if eq_ci(s, "vue"@) {
        Some(TechModel { name: "Vue.js"@, aliases: seq!["vue"@, "vuejs"@] })
    } else if eq_ci(s, "django"@) {
        Some(TechModel { name: "Django"@, aliases: seq!["django"@] })
    } else if eq_ci(s, "flask"@) {
        Some(TechModel { name: "Flask"@, aliases: seq!["flask"@] })
    } else if eq_ci(s, "fastapi"@) {
        Some(TechModel { name: "FastAPI"@, aliases: seq!["fastapi"@, "fast-api"@] })
    } else {
        None
    }
}

fn entry(name: &str, a0: &str, a1: Option<&str>, a2: Option<&str>) -> (t: Tech)
    ensures
        t@.name == name@,
        t@.aliases == match (a1, a2) {
            (None, _) => seq![a0@],
            (Some(x1), None) => seq![a0@, x1@],
            (Some(x1), Some(x2)) => seq![a0@, x1@, x2@],
        },
{
    let mut aliases: Vec<String> = Vec::new();
    aliases.push(String::from_str(a0));
    match a1 {
        Some(x1) => {
            aliases.push(String::from_str(x1));
            match a2 {
                Some(x2) => {
                    aliases.push(String::from_str(x2));
                    proof {
                        assert(aliases.deep_view() =~= seq![a0@, x1@, x2@]);
                    }
                },
                None => {
                    proof {
                        assert(aliases.deep_view() =~= seq![a0@, x1@]);
                    }
                },
            }
        },
        None => {
            proof {
                assert(aliases.deep_view() =~= seq![a0@]);
            }
        },
    }
    Tech { name: String::from_str(name), aliases }
}

impl Tech {
    /// Look a technology up by any of its recognised spellings.
    pub fn from_name(name: &str) -> (r: Option<Tech>)
        ensures
            r is Some <==> spec_from_name(name@) is Some,
            r matches Some(t) ==> t@ == spec_from_name(name@).arrow_Some_0(),
    {
        if str_eq_ci(name, "rust") {
            Some(entry("Rust", "rust", Some("rs"), None))
        } else if str_eq_ci(name, "python") {
            Some(entry("Python", "python", Some("py"), Some("python3")))
        } else if str_eq_ci(name, "node") || str_eq_ci(name, "nodejs") {
            Some(entry("Node.js", "node", Some("nodejs"), Some("js")))
        } else if str_eq_ci(name, "react") {
            Some(entry("React", "react", Some("reactjs"), None))
        } else if str_eq_ci(name, "vue") {
            Some(entry("Vue.js", "vue", Some("vuejs"), None))
        } else if str_eq_ci(name, "django") {
            Some(entry("Django", "django", None, None))
        } else if str_eq_ci(name, "flask") {
            Some(entry("Flask", "flask", None, None))
        } else if str_eq_ci(name, "fastapi") {
            Some(entry("FastAPI", "fastapi", Some("fast-api"), None))
        } else {
            None
        }
    }
}

} // verus!
