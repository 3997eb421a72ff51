use sonarpad_options::interpreter::{interpreter_search_name, paths_from_lookup_output};

#[test]
fn search_name_adds_exe() {
    assert_eq!(interpreter_search_name("python"), Some("python.exe".to_string()));
}

#[test]
fn search_name_keeps_exe_in_any_case() {
    assert_eq!(interpreter_search_name("Python.EXE"), Some("Python.EXE".to_string()));
    assert_eq!(interpreter_search_name("node.exe"), Some("node.exe".to_string()));
}

#[test]
fn search_name_blank_query() {
    assert_eq!(interpreter_search_name(""), None);
    assert_eq!(interpreter_search_name("   \t"), None);
}

#[test]
fn search_name_keeps_surrounding_spaces() {
    assert_eq!(interpreter_search_name(" py "), Some(" py .exe".to_string()));
}

#[test]
fn lookup_output_lines() {
    let out = "C:\\Python312\\python.exe\r\n  C:\\Windows\\py.exe  \r\n\r\n";
    assert_eq!(
        paths_from_lookup_output(out),
        vec!["C:\\Python312\\python.exe".to_string(), "C:\\Windows\\py.exe".to_string()]
    );
}

#[test]
fn lookup_output_without_final_newline() {
    assert_eq!(paths_from_lookup_output("a\nb"), vec!["a".to_string(), "b".to_string()]);
}

#[test]
fn lookup_output_empty() {
    assert!(paths_from_lookup_output("").is_empty());
    assert!(paths_from_lookup_output("\n \n\t\n").is_empty());
}
