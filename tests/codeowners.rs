use action_pipeline::codeowners_hash::name_less;
use action_pipeline::CodeownersHash;

fn names(h: &CodeownersHash<String, u32>) -> Vec<(String, u32)> {
    h.entries().clone()
}

#[test]
fn insertion_order_does_not_change_content() {
    let mut a = CodeownersHash::new("ws".to_string());
    a.add_project("web", 1);
    a.add_project("api", 2);
    a.add_project("cli", 3);
    let mut b = CodeownersHash::new("ws".to_string());
    b.add_project("cli", 3);
    b.add_project("web", 1);
    b.add_project("api", 2);
    assert_eq!(names(&a), names(&b));
    assert_eq!(
        names(&a),
        vec![("api".to_string(), 2), ("cli".to_string(), 3), ("web".to_string(), 1)]
    );
}

#[test]
fn adding_a_name_again_replaces_it() {
    let mut h = CodeownersHash::new("ws".to_string());
    h.add_project("app", 1);
    h.add_project("app", 5);
    assert_eq!(names(&h), vec![("app".to_string(), 5)]);
    assert_eq!(h.workspace(), "ws");
}

#[test]
fn empty_has_no_entries() {
    let h: CodeownersHash<String, u32> = CodeownersHash::new("ws".to_string());
    assert!(h.entries().is_empty());
}

#[test]
fn byte_order_of_names() {
    assert!(name_less("a", "b"));
    assert!(name_less("ab", "abc"));
    assert!(!name_less("abc", "ab"));
    assert!(!name_less("same", "same"));
    assert!(name_less("", "x"));
    assert!(name_less("Z", "a"));
    assert!(name_less("z", "\u{e9}"));
}
