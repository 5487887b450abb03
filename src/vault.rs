//! Project vaults: where each project's notes live, links that open a note,
//! and the layout of a note's text (a JSON frontmatter between `---` fences).
use vstd::prelude::*;
use vstd::hash_map::StringHashMap;
use vstd::string::StringExecFns;
use crate::outside::{chars_of, parse_json_object, to_pretty_json, trim_text, trimmed, url_encode, url_encoded};

verus! {

broadcast use vstd::string::group_string_axioms, vstd::hash_map::group_hash_map_axioms;

#[verifier::external_type_specification]
#[verifier::external_body]
pub struct ExPathBuf(std::path::PathBuf);

/// A note read from a vault.
#[derive(Debug, Clone)]
pub struct VaultNote {
    pub path: String,
    pub name: String,
    pub content: String,
    pub frontmatter: serde_json::Map<String, serde_json::Value>,
    pub last_modified: String,
}

/// A note found in a vault directory.
#[derive(Debug, Clone)]
pub struct VaultNoteEntry {
    pub path: String,
    pub name: String,
    pub last_modified: String,
}

#[derive(Debug, Clone)]
pub enum VaultError {
    VaultNotFound(String),
    NoteNotFound(String),
    IoError(String),
}

impl VaultError {
    /// The message shown for the error.
    pub fn message(&self) -> (r: String)
        ensures
            r@ == match self {
                VaultError::VaultNotFound(p) => "Vault not found for project: "@ + p@,
                VaultError::NoteNotFound(p) => "Note not found: "@ + p@,
                VaultError::IoError(e) => "IO error: "@ + e@,
            },
    {
        let (mut r, detail) = match self {
            VaultError::VaultNotFound(p) => ("Vault not found for project: ".to_string(), p),
            VaultError::NoteNotFound(p) => ("Note not found: ".to_string(), p),
            VaultError::IoError(e) => ("IO error: ".to_string(), e),
        };
        r.append(detail.as_str());
        r
    }
}

/// The vault directory of each project.
pub struct VaultManager {
    vault_paths: StringHashMap<std::path::PathBuf>,
}

impl View for VaultManager {
    type V = Map<Seq<char>, std::path::PathBuf>;

    closed spec fn view(&self) -> Map<Seq<char>, std::path::PathBuf> {
        self.vault_paths@
    }
}

/// The link that opens a note, from the encoded vault name and note path.
pub open spec fn deep_link_text(encoded_vault: Seq<char>, encoded_file: Seq<char>) -> Seq<char> {
    "obsidian://open?vault="@ + encoded_vault + "&file="@ + encoded_file
}

/// The link that opens a note, from the already encoded vault name and note path.
pub fn deep_link(encoded_vault: &str, encoded_file: &str) -> (r: String)
    ensures
        r@ == deep_link_text(encoded_vault@, encoded_file@),
{
    let mut r = "obsidian://open?vault=".to_string();
    r.append(encoded_vault);
    r.append("&file=");
    r.append(encoded_file);
    r
}

impl VaultManager {
    /// A manager that knows no vault.
    pub fn new() -> (r: Self)
        ensures
            r@ == Map::<Seq<char>, std::path::PathBuf>::empty(),
    {
        VaultManager { vault_paths: StringHashMap::new() }
    }

    /// Sets the project's vault directory, replacing any earlier one.
    pub fn register_vault(&mut self, project_id: &str, vault_path: std::path::PathBuf)
        ensures
            final(self)@ == old(self)@.insert(project_id@, vault_path),
    {
        self.vault_paths.insert(project_id.to_string(), vault_path);
    }

    /// The project's vault directory, or `VaultNotFound` naming the project.
    pub fn vault_path(&self, project_id: &str) -> (r: Result<&std::path::PathBuf, VaultError>)
        ensures
            match r {
                Ok(p) => self@.contains_key(project_id@) && *p == self@[project_id@],
                Err(e) => !self@.contains_key(project_id@) && (e matches VaultError::VaultNotFound(id)
                    && id@ == project_id@),
            },
    {
        match self.vault_paths.get(project_id) {
            Some(p) => Ok(p),
            None => Err(VaultError::VaultNotFound(project_id.to_string())),
        }
    }

    /// The link that opens the note in the named vault, both names percent-encoded.
    pub fn build_deep_link(&self, vault_name: &str, note_path: &str) -> (r: String)
        ensures
            r@ == deep_link_text(url_encoded(vault_name@), url_encoded(note_path@)),
    {
        let encoded_vault = url_encode(vault_name);
        let encoded_file = url_encode(note_path);
        deep_link(encoded_vault.as_str(), encoded_file.as_str())
    }
}

/// Three dashes start at position `k`.
pub open spec fn fence_at(s: Seq<char>, k: int) -> bool {
    0 <= k && k + 3 <= s.len() && s[k] == '-' && s[k + 1] == '-' && s[k + 2] == '-'
}

/// `k` is where the first fence after the opening one starts.
pub open spec fn closing_fence_at(s: Seq<char>, k: int) -> bool {
    &&& k >= 3
    &&& fence_at(s, k)
    &&& forall|j: int| 3 <= j < k ==> !#[trigger] fence_at(s, j)
}

/// The text opens with a fence and has a closing one.
pub open spec fn has_frontmatter(s: Seq<char>) -> bool {
    fence_at(s, 0) && exists|k: int| closing_fence_at(s, k)
}

/// Where the closing fence starts.
pub open spec fn closing_fence(s: Seq<char>) -> int {
    choose|k: int| closing_fence_at(s, k)
}

/// The body of a note: after the closing fence, trimmed, where the note has
/// a frontmatter; else the whole text.
pub open spec fn note_body(s: Seq<char>) -> Seq<char> {
    if has_frontmatter(s) {
        trimmed(s.subrange(closing_fence(s) + 3, s.len() as int))
    } else {
        s
    }
}

proof fn lemma_closing_fence_unique(s: Seq<char>, k: int)
    requires
        closing_fence_at(s, k),
    ensures
        closing_fence(s) == k,
{
    let c = closing_fence(s);
    assert(closing_fence_at(s, c));
    if c < k {
        assert(fence_at(s, c));
    }
    if k < c {
        assert(fence_at(s, k));
    }
}

/// Splits a note's text into its frontmatter and what follows the closing
/// fence, where the text opens with `---` and has a later `---`.
pub fn split_frontmatter(content: &str) -> (r: Option<(String, String)>)
    ensures
        r is Some <==> has_frontmatter(content@),
        r matches Some((fm, rest)) ==> fm@ == content@.subrange(3, closing_fence(content@))
            && rest@ == content@.subrange(closing_fence(content@) + 3, content@.len() as int),
{
    let cs = chars_of(content);
    let n = cs.len();
    if !(n >= 3 && cs[0] == '-' && cs[1] == '-' && cs[2] == '-') {
        return None;
    }
    let mut k: usize = 3;
    while n - k >= 3
        invariant
            cs@ == content@,
            n == cs@.len(),
            3 <= k <= n,
            fence_at(content@, 0),
            forall|j: int| 3 <= j < k ==> !#[trigger] fence_at(content@, j),
        decreases n - k,
    {
        if cs[k] == '-' && cs[k + 1] == '-' && cs[k + 2] == '-' {
            proof {
                assert(closing_fence_at(content@, k as int));
                lemma_closing_fence_unique(content@, k as int);
            }
            let fm = content.substring_char(3, k).to_string();
            let rest = content.substring_char(k + 3, n).to_string();
            return Some((fm, rest));
        }
        k = k + 1;
    }
    assert forall|j: int| !closing_fence_at(content@, j) by {
        if closing_fence_at(content@, j) {
            assert(fence_at(content@, j));
        }
    }
    None
}

/// The frontmatter and the body of a note's text. The frontmatter is the
/// JSON object between the fences, empty where there is none or it does not
/// parse.
pub fn parse_frontmatter(content: &str) -> (r: (serde_json::Map<String, serde_json::Value>, String))
    ensures
        r.1@ == note_body(content@),
{
    match split_frontmatter(content) {
        Some((fm, rest)) => {
            let frontmatter = match parse_json_object(fm.as_str()) {
                Some(m) => m,
                None => serde_json::Map::new(),
            };
            (frontmatter, trim_text(rest.as_str()))
        },
        None => (serde_json::Map::new(), content.to_string()),
    }
}

/// The text of a note: the frontmatter JSON between fences, a blank line, then the content.
pub open spec fn note_text_of(frontmatter_json: Seq<char>, content: Seq<char>) -> Seq<char> {
    "---\n"@ + frontmatter_json + "\n---\n\n"@ + content
}

/// The text of a note from its frontmatter JSON and its content.
pub fn note_text(frontmatter_json: &str, content: &str) -> (r: String)
    ensures
        r@ == note_text_of(frontmatter_json@, content@),
{
    let mut r = "---\n".to_string();
    r.append(frontmatter_json);
    r.append("\n---\n\n");
    r.append(content);
    r
}

/// The text of a note with the frontmatter as indented JSON (`{}` where it
/// cannot be written).
pub fn render_note(frontmatter: &serde_json::Map<String, serde_json::Value>, content: &str) -> (r: String)
    ensures
        exists|json: Seq<char>| r@ == note_text_of(json, content@),
{
    let json = match to_pretty_json(frontmatter) {
        Some(s) => s,
        None => "{}".to_string(),
    };
    note_text(json.as_str(), content)
}

} // verus!
