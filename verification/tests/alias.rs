use helix_term::alias::{Alias, Aliases};

fn sample() -> Aliases {
    let aliases: &'static [Alias] = Vec::leak(vec![
        Alias { name: "wa!", command: Some("write --all --force") },
        Alias { name: "w", command: None },
        Alias { name: "wa", command: Some("write --all") },
        Alias { name: "q", command: Some("quit") },
        Alias { name: "w", command: Some("write again") },
    ]);
    Aliases { aliases }
}

#[test]
fn empty_aliases() {
    let a = Aliases::empty();
    assert!(a.is_empty());
    assert!(a.get("w").is_none());
    assert_eq!(a.iter().len(), 0);
}

#[test]
fn get_finds_the_first_alias_with_the_name() {
    let a = sample();
    assert!(!a.is_empty());
    assert_eq!(a.get("w").unwrap().command, None);
    assert_eq!(a.get("wa").unwrap().command, Some("write --all"));
    assert!(a.get("x").is_none());
    assert_eq!(a.iter().len(), 5);
}

#[test]
fn flags_follow_the_first_space() {
    let a = sample();
    assert_eq!(a.get("wa!").unwrap().flags(), Some("--all --force"));
    assert_eq!(a.get("wa").unwrap().flags(), Some("--all"));
    assert_eq!(a.get("q").unwrap().flags(), None);
    assert_eq!(a.get("w").unwrap().flags(), None);
}

