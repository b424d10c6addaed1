use eulesia::search::indexes::{index_settings, AttributeKind, ThreadDocument, UserDocument};

#[test]
fn index_settings_in_order() {
    let s = index_settings();
    assert_eq!(s.len(), 5);
    assert_eq!(s[0].index, "threads");
    assert_eq!(s[0].kind, AttributeKind::Filterable);
    assert_eq!(s[0].attributes, vec!["scope", "municipality_id", "tags", "author_id"]);
    assert_eq!(s[1].kind, AttributeKind::Sortable);
    assert_eq!(s[1].attributes, vec!["score", "created_at"]);
    assert_eq!(s[2].kind, AttributeKind::Searchable);
    assert_eq!(s[2].attributes, vec!["title", "content", "tags"]);
    assert_eq!(s[3].index, "users");
    assert_eq!(s[3].kind, AttributeKind::Searchable);
    assert_eq!(s[3].attributes, vec!["username", "name"]);
    assert_eq!(s[4].index, "users");
    assert_eq!(s[4].kind, AttributeKind::Filterable);
    assert_eq!(s[4].attributes, vec!["role"]);
}

#[test]
fn index_attributes_name_document_fields() {
    let thread_fields = [
        "id", "title", "content", "author_id", "author_name", "scope", "municipality_id", "tags",
        "score", "created_at",
    ];
    let user_fields = ["id", "username", "name", "role", "avatar_url"];
    for s in index_settings() {
        for a in &s.attributes {
            if s.index == "threads" {
                assert!(thread_fields.contains(&a.as_str()));
            } else {
                assert_eq!(s.index, "users");
                assert!(user_fields.contains(&a.as_str()));
            }
        }
    }
    let _ = ThreadDocument {
        id: String::new(),
        title: String::new(),
        content: String::new(),
        author_id: String::new(),
        author_name: String::new(),
        scope: String::new(),
        municipality_id: None,
        tags: vec![],
        score: 0,
        created_at: 0,
    };
    let _ = UserDocument {
        id: String::new(),
        username: String::new(),
        name: String::new(),
        role: String::new(),
        avatar_url: None,
    };
}
