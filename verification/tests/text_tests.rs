use gardnr::text::{replace_text, str_contains_ci, str_eq, str_eq_ci, str_trim};

#[test]
fn case_insensitive_equality() {
    assert!(str_eq_ci("FastAPI", "fastapi"));
    assert!(str_eq_ci("", ""));
    assert!(!str_eq_ci("fastapi", "fastapi2"));
    assert!(!str_eq_ci("rust", "ruby"));
}

#[test]
fn case_sensitive_equality() {
    assert!(str_eq("python", "python"));
    assert!(!str_eq("Python", "python"));
}

#[test]
fn substring_search_ignores_case() {
    assert!(str_contains_ci("my-NumPy-app", "numpy"));
    assert!(str_contains_ci("webpack", "webpack"));
    assert!(str_contains_ci("anything", ""));
    assert!(!str_contains_ci("number", "numpy"));
}

#[test]
fn trimming_ascii_whitespace() {
    assert_eq!(str_trim("  a b  "), "a b");
    assert_eq!(str_trim("\t\nx\r\n"), "x");
    assert_eq!(str_trim("   "), "");
    assert_eq!(str_trim(""), "");
    assert_eq!(str_trim("no-space"), "no-space");
}

#[test]
fn replace_all_occurrences() {
    assert_eq!(replace_text("aaa", "a", "b"), "bbb");
    assert_eq!(replace_text("abcabc", "bc", "x"), "axax");
    assert_eq!(replace_text("nothing here", "zzz", "x"), "nothing here");
    assert_eq!(replace_text("aaaa", "aa", "b"), "bb");
    assert_eq!(replace_text("", "a", "b"), "");
}

#[test]
fn replace_rewrites_manifest_scripts() {
    let manifest = "{\n  \"name\": \"demo\",\n  \"scripts\": {\n    \"test\": \"echo \\\"Error: no test specified\\\" && exit 1\"\n  },\n  \"license\": \"ISC\"\n}\n";
    let pat = "  \"scripts\": {\n    \"test\": \"echo \\\"Error: no test specified\\\" && exit 1\"\n  },";
    let rep = "  \"scripts\": {\n    \"start\": \"node server.js\",\n    \"dev\": \"nodemon server.js\",\n    \"test\": \"echo \\\"Error: no test specified\\\" && exit 1\"\n  },";
    let out = replace_text(manifest, pat, rep);
    assert!(out.contains("\"dev\": \"nodemon server.js\""));
    assert!(out.contains("\"license\": \"ISC\""));
}
