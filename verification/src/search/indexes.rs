use vstd::prelude::*;

verus! {

/// A discussion thread as the search index stores it.
pub struct ThreadDocument {
    pub id: String,
    pub title: String,
    pub content: String,
    pub author_id: String,
    pub author_name: String,
    pub scope: String,
    pub municipality_id: Option<String>,
    pub tags: Vec<String>,
    pub score: i32,
    /// A UNIX timestamp, so that threads can be sorted by it.
    pub created_at: i64,
}

/// A user as the search index stores it.
pub struct UserDocument {
    pub id: String,
    pub username: String,
    pub name: String,
    pub role: String,
    pub avatar_url: Option<String>,
}

/// The names of the fields of a thread document.
pub open spec fn thread_document_fields() -> Set<Seq<char>> {
    set![
        "id"@,
        "title"@,
        "content"@,
        "author_id"@,
        "author_name"@,
        "scope"@,
        "municipality_id"@,
        "tags"@,
        "score"@,
        "created_at"@,
    ]
}

/// The names of the numeric fields of a thread document.
pub open spec fn thread_document_numeric_fields() -> Set<Seq<char>> {
    set!["score"@, "created_at"@]
}

/// The names of the fields of a user document.
pub open spec fn user_document_fields() -> Set<Seq<char>> {
    set!["id"@, "username"@, "name"@, "role"@, "avatar_url"@]
}

/// Which attribute list of an index a setting replaces.
#[derive(PartialEq, Eq, Structural, Clone, Copy, Debug)]
pub enum AttributeKind {
    /// Attributes that searches may filter on.
    Filterable,
    /// Attributes that searches may sort by.
    Sortable,
    /// Attributes whose text is searched.
    Searchable,
}

/// One setting of a search index: the attributes of one kind.
pub struct IndexSetting {
    pub index: String,
    pub kind: AttributeKind,
    pub attributes: Vec<String>,
}

/// What a setting says, with its texts as character sequences.
pub open spec fn setting_view(s: IndexSetting) -> (Seq<char>, AttributeKind, Seq<Seq<char>>) {
    (s.index@, s.kind, s.attributes@.map_values(|a: String| a@))
}

/// The settings of the search indexes, in the order they are applied: the
/// threads index filters on scope, municipality, tags and author, sorts by
/// score and creation time, and searches title, content and tags; the users
/// index searches username and name and filters on role.
pub open spec fn spec_index_settings() -> Seq<(Seq<char>, AttributeKind, Seq<Seq<char>>)> {
    seq![
        (
            "threads"@,
            AttributeKind::Filterable,
            seq!["scope"@, "municipality_id"@, "tags"@, "author_id"@],
        ),
        ("threads"@, AttributeKind::Sortable, seq!["score"@, "created_at"@]),
        ("threads"@, AttributeKind::Searchable, seq!["title"@, "content"@, "tags"@]),
        ("users"@, AttributeKind::Searchable, seq!["username"@, "name"@]),
        ("users"@, AttributeKind::Filterable, seq!["role"@]),
    ]
}

fn strings(names: &[&str]) -> (v: Vec<String>)
    ensures
        v@.map_values(|a: String| a@) == names@.map_values(|n: &str| n@),
{
    let mut v: Vec<String> = Vec::new();
    let n = names.len();
    for i in 0..n
        invariant
            n == names@.len(),
            v@.len() == i,
            forall|j: int| 0 <= j < i ==> (#[trigger] v@[j])@ == names@[j]@,
    {
        v.push(String::from_str(names[i]));
    }
    assert(v@.map_values(|a: String| a@) =~= names@.map_values(|n: &str| n@));
    v
}

fn setting(index: &str, kind: AttributeKind, names: &[&str]) -> (s: IndexSetting)
    ensures
        setting_view(s) == (index@, kind, names@.map_values(|n: &str| n@)),
{
    IndexSetting { index: String::from_str(index), kind, attributes: strings(names) }
}

/// The settings to apply to the search indexes at startup.
pub fn index_settings() -> (v: Vec<IndexSetting>)
    ensures
        v@.map_values(|s: IndexSetting| setting_view(s)) == spec_index_settings(),
{
    let mut v: Vec<IndexSetting> = Vec::new();
    let threads_filterable = vec!["scope", "municipality_id", "tags", "author_id"];
    let threads_sortable = vec!["score", "created_at"];
    let threads_searchable = vec!["title", "content", "tags"];
    let users_searchable = vec!["username", "name"];
    let users_filterable = vec!["role"];
    v.push(setting("threads", AttributeKind::Filterable, threads_filterable.as_slice()));
    v.push(setting("threads", AttributeKind::Sortable, threads_sortable.as_slice()));
    v.push(setting("threads", AttributeKind::Searchable, threads_searchable.as_slice()));
    v.push(setting("users", AttributeKind::Searchable, users_searchable.as_slice()));
    v.push(setting("users", AttributeKind::Filterable, users_filterable.as_slice()));
    assert(setting_view(v@[0]).2 =~= seq!["scope"@, "municipality_id"@, "tags"@, "author_id"@]);
    assert(setting_view(v@[1]).2 =~= seq!["score"@, "created_at"@]);
    assert(setting_view(v@[2]).2 =~= seq!["title"@, "content"@, "tags"@]);
    assert(setting_view(v@[3]).2 =~= seq!["username"@, "name"@]);
    assert(setting_view(v@[4]).2 =~= seq!["role"@]);
    assert(v@.map_values(|s: IndexSetting| setting_view(s)) =~= spec_index_settings());
    v
}

/// Every attribute the threads index is set up with is a field of a thread
/// document, and every attribute of the users index a field of a user
/// document; threads sort only by numeric fields.
pub proof fn law_index_attributes_are_document_fields()
    ensures
        forall|i: int, j: int|
            #![trigger spec_index_settings()[i].2[j]]
            0 <= i < spec_index_settings().len() && 0 <= j < spec_index_settings()[i].2.len() ==> {
                &&& spec_index_settings()[i].0 == "threads"@ ==> thread_document_fields().contains(
                    spec_index_settings()[i].2[j],
                )
                &&& spec_index_settings()[i].0 == "users"@ ==> user_document_fields().contains(
                    spec_index_settings()[i].2[j],
                )
                &&& spec_index_settings()[i].0 == "threads"@ && spec_index_settings()[i].1
                    == AttributeKind::Sortable ==> thread_document_numeric_fields().contains(
                    spec_index_settings()[i].2[j],
                )
            },
        forall|i: int|
            0 <= i < spec_index_settings().len() ==> (#[trigger] spec_index_settings()[i]).0
                == "threads"@ || spec_index_settings()[i].0 == "users"@,
{
    reveal_strlit("threads");
    reveal_strlit("users");
    assert("threads"@.len() != "users"@.len());
    let t = spec_index_settings();
    assert(t.len() == 5);
    assert(t[0].2 == seq!["scope"@, "municipality_id"@, "tags"@, "author_id"@]);
    assert(t[1].2 == seq!["score"@, "created_at"@]);
    assert(t[2].2 == seq!["title"@, "content"@, "tags"@]);
    assert(t[3].2 == seq!["username"@, "name"@]);
    assert(t[4].2 == seq!["role"@]);
}

} // verus!
