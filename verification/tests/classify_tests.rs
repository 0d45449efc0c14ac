use gardnr::classify::{
    classify, is_likely_node_package, is_likely_python_package, is_self_managed, Classification,
    Ecosystem, Strategy,
};
use gardnr::tech::Tech;

#[test]
fn exact_table_python_family() {
    assert_eq!(classify("django"), Classification::Known(Strategy::Django));
    assert_eq!(classify("flask"), Classification::Known(Strategy::Flask));
    assert_eq!(classify("fastapi"), Classification::Known(Strategy::FastApi));
    assert_eq!(classify("pyramid"), Classification::Known(Strategy::Pyramid));
    assert_eq!(classify("python"), Classification::Known(Strategy::PythonGeneric));
}

#[test]
fn exact_table_js_family() {
    assert_eq!(classify("react"), Classification::Known(Strategy::React));
    assert_eq!(classify("vue"), Classification::Known(Strategy::Vue));
    assert_eq!(classify("svelte"), Classification::Known(Strategy::Svelte));
    assert_eq!(classify("node"), Classification::Known(Strategy::NodeExpress));
    assert_eq!(classify("nodejs"), Classification::Known(Strategy::NodeExpress));
    assert_eq!(classify("express"), Classification::Known(Strategy::NodeExpress));
    assert_eq!(classify("nextjs"), Classification::Known(Strategy::NextJs));
    assert_eq!(classify("next"), Classification::Known(Strategy::NextJs));
    assert_eq!(classify("nuxt"), Classification::Known(Strategy::Nuxt));
}

#[test]
fn exact_table_compiled() {
    assert_eq!(classify("rust"), Classification::Known(Strategy::RustCrate));
}

#[test]
fn classification_is_case_insensitive() {
    assert_eq!(classify("FastAPI"), Classification::Known(Strategy::FastApi));
    assert_eq!(classify("DJANGO"), Classification::Known(Strategy::Django));
    assert_eq!(classify("React"), Classification::Known(Strategy::React));
    assert_eq!(classify("Rust"), Classification::Known(Strategy::RustCrate));
}

#[test]
fn heuristic_python_by_substring() {
    assert_eq!(classify("numpy"), Classification::Heuristic(Ecosystem::Python));
    assert_eq!(classify("my-numpy-pipeline"), Classification::Heuristic(Ecosystem::Python));
    assert_eq!(classify("TensorFlow"), Classification::Heuristic(Ecosystem::Python));
    assert_eq!(classify("scikit-learn"), Classification::Heuristic(Ecosystem::Python));
}

#[test]
fn heuristic_node_by_substring() {
    assert_eq!(classify("webpack"), Classification::Heuristic(Ecosystem::Js));
    assert_eq!(classify("typescript-service"), Classification::Heuristic(Ecosystem::Js));
    assert_eq!(classify("angular"), Classification::Heuristic(Ecosystem::Js));
}

#[test]
fn python_heuristic_wins_over_node_heuristic() {
    // mentions both "redis" (Python table) and "ws" (Node table);
    // the Python list is consulted first
    assert_eq!(classify("redis-ws-bridge"), Classification::Heuristic(Ecosystem::Python));
}

#[test]
fn unrecognized_technology_is_unknown() {
    assert_eq!(classify("cobol"), Classification::Unknown);
    assert_eq!(classify("x"), Classification::Unknown);
    assert_eq!(classify("fortran-77"), Classification::Unknown);
}

#[test]
fn likely_package_tables() {
    assert!(is_likely_python_package("pandas"));
    assert!(is_likely_python_package("uses-OpenCV-here"));
    assert!(!is_likely_python_package("cobol"));
    assert!(is_likely_node_package("eslint"));
    assert!(is_likely_node_package("ember"));
    assert!(!is_likely_node_package("pandas"));
}

#[test]
fn self_managed_strategies() {
    assert!(is_self_managed(classify("django")));
    assert!(is_self_managed(classify("react")));
    assert!(is_self_managed(classify("vue")));
    assert!(is_self_managed(classify("svelte")));
    assert!(is_self_managed(classify("next")));
    assert!(is_self_managed(classify("nuxt")));
    assert!(!is_self_managed(classify("flask")));
    assert!(!is_self_managed(classify("node")));
    assert!(!is_self_managed(classify("rust")));
    assert!(!is_self_managed(classify("cobol")));
}

#[test]
fn tech_from_name_known_entries() {
    let t = Tech::from_name("rust").unwrap();
    assert_eq!(t.name, "Rust");
    assert_eq!(t.aliases, vec!["rust".to_string(), "rs".to_string()]);

    let t = Tech::from_name("python").unwrap();
    assert_eq!(t.name, "Python");
    assert_eq!(t.aliases, vec!["python".to_string(), "py".to_string(), "python3".to_string()]);

    let t = Tech::from_name("node").unwrap();
    assert_eq!(t.name, "Node.js");
    let t2 = Tech::from_name("nodejs").unwrap();
    assert_eq!(t2.name, "Node.js");

    let t = Tech::from_name("fastapi").unwrap();
    assert_eq!(t.name, "FastAPI");
    assert_eq!(t.aliases, vec!["fastapi".to_string(), "fast-api".to_string()]);
}

#[test]
fn tech_from_name_is_case_insensitive() {
    assert_eq!(Tech::from_name("Vue").unwrap().name, "Vue.js");
    assert_eq!(Tech::from_name("DJANGO").unwrap().name, "Django");
}

#[test]
fn tech_from_name_unknown() {
    assert!(Tech::from_name("cobol").is_none());
    assert!(Tech::from_name("svelte").is_none());
}
