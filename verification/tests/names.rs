use flox::manifest::{copy_text, same_text, LockFile, Manifest};
use flox::names::{
    are_distinct, are_well_formed, are_within, contains, copy_list, difference_of, is_well_formed,
    same_list, union_of,
};

fn names(list: &[&str]) -> Vec<String> {
    list.iter().map(|p| p.to_string()).collect()
}

#[test]
fn well_formed_specifiers() {
    assert!(is_well_formed("hello"));
    assert!(is_well_formed("nixpkgs#hello"));
    assert!(is_well_formed("stable.nixpkgs-flox.hello@2.12"));
    assert!(is_well_formed("h\u{e9}llo"));
    assert!(is_well_formed("-"));
    assert!(!is_well_formed(""));
    assert!(!is_well_formed(" "));
    assert!(!is_well_formed("a b"));
    assert!(!is_well_formed("a\tb"));
    assert!(!is_well_formed("ab\n"));
    assert!(!is_well_formed("\rab"));
    assert!(are_well_formed(&names(&["a", "b"])));
    assert!(are_well_formed(&names(&[])));
    assert!(!are_well_formed(&names(&["a", ""])));
}

#[test]
fn membership_and_distinctness() {
    let list = names(&["a", "b", "c"]);
    assert!(contains(&list, &"b".to_string()));
    assert!(!contains(&list, &"d".to_string()));
    assert!(!contains(&names(&[]), &"a".to_string()));
    assert!(are_within(&names(&["c", "a"]), &list));
    assert!(are_within(&names(&[]), &list));
    assert!(!are_within(&names(&["a", "x"]), &list));
    assert!(are_distinct(&list));
    assert!(are_distinct(&names(&[])));
    assert!(!are_distinct(&names(&["a", "b", "a"])));
    assert!(!are_distinct(&names(&["b", "a", "a"])));
}

#[test]
fn union_keeps_order_and_drops_repeats() {
    assert_eq!(union_of(&names(&["a", "b"]), &names(&["c", "a", "d", "c"])), names(&["a", "b", "c", "d"]));
    assert_eq!(union_of(&names(&[]), &names(&["x", "x"])), names(&["x"]));
    assert_eq!(union_of(&names(&["a", "a"]), &names(&[])), names(&["a", "a"]));
}

#[test]
fn difference_keeps_order() {
    assert_eq!(difference_of(&names(&["a", "b", "c", "d"]), &names(&["c", "a"])), names(&["b", "d"]));
    assert_eq!(difference_of(&names(&["a", "b"]), &names(&[])), names(&["a", "b"]));
    assert_eq!(difference_of(&names(&[]), &names(&["a"])), names(&[]));
    assert_eq!(difference_of(&names(&["a", "a"]), &names(&["a"])), names(&[]));
}

#[test]
fn lists_and_texts_compare_by_content() {
    assert!(same_list(&names(&["a", "b"]), &names(&["a", "b"])));
    assert!(!same_list(&names(&["a", "b"]), &names(&["b", "a"])));
    assert!(!same_list(&names(&["a"]), &names(&["a", "b"])));
    assert_eq!(copy_list(&names(&["x", "y"])), names(&["x", "y"]));
    assert!(same_text(&None, &None));
    assert!(same_text(&Some("s".to_string()), &Some("s".to_string())));
    assert!(!same_text(&Some("s".to_string()), &None));
    assert!(!same_text(&Some("s".to_string()), &Some("t".to_string())));
    assert_eq!(copy_text(&Some("s".to_string())), Some("s".to_string()));
    assert_eq!(copy_text(&None), None);
}

#[test]
fn manifests_and_locks() {
    let manifest = Manifest::new(names(&["a", "b"]), Some("x86_64-linux".to_string()));
    assert!(manifest.is_valid());
    assert!(manifest.same_as(&manifest.clone()));
    assert!(!manifest.same_as(&Manifest::new(names(&["a", "b"]), None)));
    assert!(!manifest.same_as(&Manifest::new(names(&["a"]), Some("x86_64-linux".to_string()))));
    assert!(Manifest::empty().is_valid());
    assert_eq!(Manifest::empty(), Manifest::new(Vec::new(), None));
    assert!(!Manifest::new(names(&["a", "a"]), None).is_valid());
    assert!(!Manifest::new(names(&["a"]), Some("two words".to_string())).is_valid());
    let lock = LockFile::new("pins".to_string(), "/store/x".to_string());
    assert_eq!(lock.content, "pins");
    assert_eq!(lock.realized, "/store/x");
    assert!(lock.same_as(&lock.clone()));
    assert!(!lock.same_as(&LockFile::new("pins".to_string(), "/store/y".to_string())));
}
