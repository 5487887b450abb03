use nebula_governance::vault::{
    deep_link, note_text, parse_frontmatter, render_note, split_frontmatter, VaultError, VaultManager,
};

#[test]
fn vault_lookup_and_errors() {
    let mut m = VaultManager::new();
    match m.vault_path("p1") {
        Err(e) => assert_eq!(e.message(), "Vault not found for project: p1"),
        Ok(_) => panic!("no vault was registered"),
    }
    m.register_vault("p1", std::path::PathBuf::from("/tmp/vault"));
    assert_eq!(m.vault_path("p1").unwrap(), &std::path::PathBuf::from("/tmp/vault"));
    assert_eq!(VaultError::NoteNotFound("a.md".to_string()).message(), "Note not found: a.md");
    assert_eq!(VaultError::IoError("boom".to_string()).message(), "IO error: boom");
}

#[test]
fn deep_links_are_encoded() {
    let m = VaultManager::new();
    assert_eq!(m.build_deep_link("My Vault", "notes/a b.md"), "obsidian://open?vault=My%20Vault&file=notes%2Fa%20b.md");
    assert_eq!(deep_link("v", "f"), "obsidian://open?vault=v&file=f");
}

#[test]
fn frontmatter_is_split_and_parsed() {
    let text = "---{\"title\": \"x\"}---\n\n  body text \n";
    let (fm, rest) = split_frontmatter(text).unwrap();
    assert_eq!(fm, "{\"title\": \"x\"}");
    assert_eq!(rest, "\n\n  body text \n");
    let (map, body) = parse_frontmatter(text);
    assert_eq!(map["title"], "x");
    assert_eq!(body, "body text");
    assert!(split_frontmatter("no fence").is_none());
    assert!(split_frontmatter("---only one").is_none());
    let (map, body) = parse_frontmatter("plain");
    assert!(map.is_empty());
    assert_eq!(body, "plain");
}

#[test]
fn note_text_layout() {
    assert_eq!(note_text("{}", "hi"), "---\n{}\n---\n\nhi");
}

#[test]
fn rendered_note_holds_pretty_frontmatter() {
    let mut fm = serde_json::Map::new();
    fm.insert("a".to_string(), serde_json::Value::from(1));
    assert_eq!(render_note(&fm, "body"), "---\n{\n  \"a\": 1\n}\n---\n\nbody");
    assert_eq!(render_note(&serde_json::Map::new(), ""), "---\n{}\n---\n\n");
}
