//! Template registry: the index of registered templates with their checksums.
//!
//! The registry keeps, for each template name, where the template image is
//! stored, its size and its SHA-256 checksum. Reading and writing files is
//! left to the caller; the registry decides what is recorded and answered.

use crate::templates::manifest::{manifest_error_text, validation_outcome, TemplateManifest};
use crate::text::{chars_of, concat2, owned, push_char, push_str, str_eq};
use sha2::Digest;
use vstd::prelude::*;

verus! {

/// Template information.
#[derive(Debug, Clone)]
pub struct TemplateInfo {
    /// Template name.
    pub name: String,
    /// Template version.
    pub version: String,
    /// Path to the template image.
    pub path: String,
    /// Size in bytes.
    pub size_bytes: u64,
    /// SHA-256 checksum (lowercase hex).
    pub checksum: String,
    /// Verification status.
    pub verified: bool,
}

impl TemplateInfo {
    /// A field-by-field copy.
    pub fn duplicate(&self) -> (r: Self)
        ensures
            r == *self,
    {
        TemplateInfo {
            name: self.name.clone(),
            version: self.version.clone(),
            path: self.path.clone(),
            size_bytes: self.size_bytes,
            checksum: self.checksum.clone(),
            verified: self.verified,
        }
    }
}

/// Registry errors.
#[derive(Debug, Clone)]
pub enum RegistryError {
    /// No template registered under that name.
    NotFound(String),
    /// Registering would overwrite an existing template name.
    AlreadyExists(String),
    /// Manifest or path failed validation.
    Invalid(String),
    /// Underlying filesystem error.
    Io(String),
}

/// The text of a registry error.
pub open spec fn registry_error_text(e: RegistryError) -> Seq<char> {
    match e {
        RegistryError::NotFound(s) => "Template not found: "@ + s@,
        RegistryError::AlreadyExists(s) => "Template already exists: "@ + s@,
        RegistryError::Invalid(s) => "Invalid template: "@ + s@,
        RegistryError::Io(s) => "IO error: "@ + s@,
    }
}

impl RegistryError {
    /// Human-readable message.
    pub fn message(&self) -> (r: String)
        ensures
            r@ == registry_error_text(*self),
    {
        match self {
            RegistryError::NotFound(s) => concat2("Template not found: ", s.as_str()),
            RegistryError::AlreadyExists(s) => concat2("Template already exists: ", s.as_str()),
            RegistryError::Invalid(s) => concat2("Invalid template: ", s.as_str()),
            RegistryError::Io(s) => concat2("IO error: ", s.as_str()),
        }
    }
}

// ---------------------------------------------------------------------------
// Paths
// ---------------------------------------------------------------------------

/// Joining a path component onto a base path (as `Path::join` on Unix): an
/// absolute component replaces the base; otherwise a `/` separates them
/// unless the base is empty or already ends with one.
pub open spec fn path_join(base: Seq<char>, comp: Seq<char>) -> Seq<char> {
    if comp.len() > 0 && comp[0] == '/' {
        comp
    } else if base.len() == 0 || base.last() == '/' {
        base + comp
    } else {
        base + seq!['/'] + comp
    }
}

/// Joins a path component onto a base path.
pub fn join_path(base: &str, comp: &str) -> (r: String)
    ensures
        r@ == path_join(base@, comp@),
{
    let c = chars_of(comp);
    if c.len() > 0 && c[0] == '/' {
        return owned(comp);
    }
    let b = chars_of(base);
    if b.len() == 0 || b[b.len() - 1] == '/' {
        concat2(base, comp)
    } else {
        let mut r = owned(base);
        push_char(&mut r, '/');
        push_str(&mut r, comp);
        assert(r@ =~= path_join(base@, comp@));
        r
    }
}

// ---------------------------------------------------------------------------
// Checksums
// ---------------------------------------------------------------------------

/// The SHA-256 digest of a byte sequence.
pub uninterp spec fn sha256(data: Seq<u8>) -> Seq<u8>;

/// Calls `sha2::Sha256::digest`: the SHA-256 digest of `data`, which is
/// named by `sha256` and is 32 bytes long.
#[verifier::external_body]
fn sha256_digest(data: &[u8]) -> (r: Vec<u8>)
    ensures
        r@ == sha256(data@),
        r@.len() == 32,
{
    sha2::Sha256::digest(data).to_vec()
}

/// The lowercase hexadecimal digit for `d` (`0 <= d < 16`).
pub open spec fn hex_digit(d: int) -> char {
    if d < 10 {
        crate::text::digit(d)
    } else if d == 10 {
        'a'
    } else if d == 11 {
        'b'
    } else if d == 12 {
        'c'
    } else if d == 13 {
        'd'
    } else if d == 14 {
        'e'
    } else {
        'f'
    }
}

/// Lowercase hexadecimal rendering of bytes, two digits per byte.
pub open spec fn hex_lower(bytes: Seq<u8>) -> Seq<char>
    decreases bytes.len(),
{
    if bytes.len() == 0 {
        Seq::empty()
    } else {
        hex_lower(bytes.drop_last()) + seq![
            hex_digit(bytes.last() as int / 16),
            hex_digit(bytes.last() as int % 16),
        ]
    }
}

fn hex_digit_char(d: u8) -> (c: char)
    requires
        d < 16,
    ensures
        c == hex_digit(d as int),
{
    if d == 0 {
        '0'
    } else if d == 1 {
        '1'
    } else if d == 2 {
        '2'
    } else if d == 3 {
        '3'
    } else if d == 4 {
        '4'
    } else if d == 5 {
        '5'
    } else if d == 6 {
        '6'
    } else if d == 7 {
        '7'
    } else if d == 8 {
        '8'
    } else if d == 9 {
        '9'
    } else if d == 10 {
        'a'
    } else if d == 11 {
        'b'
    } else if d == 12 {
        'c'
    } else if d == 13 {
        'd'
    } else if d == 14 {
        'e'
    } else {
        'f'
    }
}

/// Lowercase hexadecimal rendering of bytes (as `{:x}` on a digest).
pub fn hex_lower_string(bytes: &[u8]) -> (r: String)
    ensures
        r@ == hex_lower(bytes@),
{
    let mut r = String::new();
    let mut i: usize = 0;
    while i < bytes.len()
        invariant
            i <= bytes.len(),
            r@ == hex_lower(bytes@.take(i as int)),
        decreases bytes.len() - i,
    {
        proof {
            assert(bytes@.take(i + 1).drop_last() =~= bytes@.take(i as int));
        }
        let b = bytes[i];
        push_char(&mut r, hex_digit_char(b / 16));
        push_char(&mut r, hex_digit_char(b % 16));
        assert(r@ =~= hex_lower(bytes@.take(i + 1)));
        i = i + 1;
    }
    assert(bytes@.take(bytes@.len() as int) =~= bytes@);
    r
}

/// The checksum recorded for template contents: lowercase hex of their SHA-256 digest.
pub open spec fn checksum_of(contents: Seq<u8>) -> Seq<char> {
    hex_lower(sha256(contents))
}

/// Hex rendering takes two digits per byte.
pub proof fn lemma_hex_lower_len(bytes: Seq<u8>)
    ensures
        hex_lower(bytes).len() == 2 * bytes.len(),
    decreases bytes.len(),
{
    if bytes.len() > 0 {
        lemma_hex_lower_len(bytes.drop_last());
    }
}

/// The SHA-256 checksum of `contents`, in lowercase hex (64 digits).
pub fn checksum_hex(contents: &[u8]) -> (r: String)
    ensures
        r@ == checksum_of(contents@),
        r@.len() == 64,
{
    let digest = sha256_digest(contents);
    proof {
        lemma_hex_lower_len(digest@);
    }
    hex_lower_string(digest.as_slice())
}

// ---------------------------------------------------------------------------
// The index
// ---------------------------------------------------------------------------

/// The map from template names to records that a sequence of index entries
/// describes (later entries win, though keys are kept distinct).
pub open spec fn entries_map(s: Seq<(String, TemplateInfo)>) -> Map<Seq<char>, TemplateInfo>
    decreases s.len(),
{
    if s.len() == 0 {
        Map::empty()
    } else {
        entries_map(s.drop_last()).insert(s.last().0@, s.last().1)
    }
}

/// No two entries have the same key.
pub open spec fn distinct_keys(s: Seq<(String, TemplateInfo)>) -> bool {
    forall|i: int, j: int| 0 <= i < j < s.len() ==> s[i].0@ != s[j].0@
}

/// Every entry is keyed by its record's name.
pub open spec fn names_match(s: Seq<(String, TemplateInfo)>) -> bool {
    forall|i: int| 0 <= i < s.len() ==> (#[trigger] s[i]).0@ == s[i].1.name@
}

/// When entries are keyed by their names, the map gives each name its own record.
pub proof fn lemma_names_match_index(s: Seq<(String, TemplateInfo)>, k: Seq<char>)
    requires
        distinct_keys(s),
        names_match(s),
        entries_map(s).contains_key(k),
    ensures
        entries_map(s)[k].name@ == k,
{
    lemma_entries_map_contains(s, k);
    let i = choose|i: int| 0 <= i < s.len() && s[i].0@ == k;
    lemma_entries_map_value(s, i);
}

/// A key is in the map exactly when some entry has it.
pub proof fn lemma_entries_map_contains(s: Seq<(String, TemplateInfo)>, k: Seq<char>)
    ensures
        entries_map(s).contains_key(k) <==> exists|i: int| 0 <= i < s.len() && s[i].0@ == k,
    decreases s.len(),
{
    if s.len() > 0 {
        lemma_entries_map_contains(s.drop_last(), k);
        if entries_map(s).contains_key(k) {
            if k != s.last().0@ {
                let i = choose|i: int| 0 <= i < s.drop_last().len() && s.drop_last()[i].0@ == k;
                assert(s[i].0@ == k);
            } else {
                assert(s[s.len() - 1].0@ == k);
            }
        }
        if exists|i: int| 0 <= i < s.len() && s[i].0@ == k {
            let i = choose|i: int| 0 <= i < s.len() && s[i].0@ == k;
            if i < s.len() - 1 {
                assert(s.drop_last()[i].0@ == k);
            }
        }
    }
}

/// With distinct keys, the map gives each entry's record under its key.
pub proof fn lemma_entries_map_value(s: Seq<(String, TemplateInfo)>, i: int)
    requires
        distinct_keys(s),
        0 <= i < s.len(),
    ensures
        entries_map(s).contains_key(s[i].0@),
        entries_map(s)[s[i].0@] == s[i].1,
    decreases s.len(),
{
    if i < s.len() - 1 {
        assert(distinct_keys(s.drop_last()));
        lemma_entries_map_value(s.drop_last(), i);
        assert(s.drop_last()[i] == s[i]);
    }
}

/// Removing the entry at `i` removes its key from the map.
pub proof fn lemma_entries_map_remove(s: Seq<(String, TemplateInfo)>, i: int)
    requires
        distinct_keys(s),
        0 <= i < s.len(),
    ensures
        distinct_keys(s.remove(i)),
        entries_map(s.remove(i)) == entries_map(s).remove(s[i].0@),
{
    let t = s.remove(i);
    let k0 = s[i].0@;
    assert forall|a: int, b: int| 0 <= a < b < t.len() implies t[a].0@ != t[b].0@ by {
        let a2 = if a < i {
            a
        } else {
            a + 1
        };
        let b2 = if b < i {
            b
        } else {
            b + 1
        };
        assert(t[a] == s[a2]);
        assert(t[b] == s[b2]);
    }
    assert forall|k: Seq<char>| #[trigger]
        entries_map(t).contains_key(k) == entries_map(s).remove(k0).contains_key(k) by {
        lemma_entries_map_contains(t, k);
        lemma_entries_map_contains(s, k);
        if entries_map(t).contains_key(k) {
            let j = choose|j: int| 0 <= j < t.len() && t[j].0@ == k;
            let j2 = if j < i {
                j
            } else {
                j + 1
            };
            assert(s[j2] == t[j]);
            assert(j2 != i);
        }
        if entries_map(s).remove(k0).contains_key(k) {
            let j = choose|j: int| 0 <= j < s.len() && s[j].0@ == k;
            assert(j != i);
            let j2 = if j < i {
                j
            } else {
                j - 1
            };
            assert(t[j2] == s[j]);
        }
    }
    assert forall|k: Seq<char>| entries_map(t).contains_key(k) implies #[trigger] entries_map(t)[k]
        == entries_map(s).remove(k0)[k] by {
        lemma_entries_map_contains(t, k);
        let j = choose|j: int| 0 <= j < t.len() && t[j].0@ == k;
        let j2 = if j < i {
            j
        } else {
            j + 1
        };
        assert(s[j2] == t[j]);
        lemma_entries_map_value(t, j);
        lemma_entries_map_value(s, j2);
    }
    assert(entries_map(t) =~= entries_map(s).remove(k0));
}

/// Replacing the entry at `i` by one with the same key replaces its record.
pub proof fn lemma_entries_map_update(
    s: Seq<(String, TemplateInfo)>,
    i: int,
    e: (String, TemplateInfo),
)
    requires
        distinct_keys(s),
        0 <= i < s.len(),
        e.0@ == s[i].0@,
    ensures
        distinct_keys(s.update(i, e)),
        entries_map(s.update(i, e)) == entries_map(s).insert(e.0@, e.1),
{
    let t = s.update(i, e);
    assert forall|a: int, b: int| 0 <= a < b < t.len() implies t[a].0@ != t[b].0@ by {
        assert(t[a].0@ == s[a].0@);
        assert(t[b].0@ == s[b].0@);
    }
    assert forall|k: Seq<char>| #[trigger]
        entries_map(t).contains_key(k) == entries_map(s).insert(e.0@, e.1).contains_key(k) by {
        lemma_entries_map_contains(t, k);
        lemma_entries_map_contains(s, k);
        if entries_map(t).contains_key(k) {
            let j = choose|j: int| 0 <= j < t.len() && t[j].0@ == k;
            assert(t[j].0@ == s[j].0@);
        }
        if entries_map(s).contains_key(k) {
            let j = choose|j: int| 0 <= j < s.len() && s[j].0@ == k;
            assert(t[j].0@ == s[j].0@);
        }
        if k == e.0@ {
            assert(t[i].0@ == k);
        }
    }
    assert forall|k: Seq<char>| entries_map(t).contains_key(k) implies #[trigger] entries_map(t)[k]
        == entries_map(s).insert(e.0@, e.1)[k] by {
        lemma_entries_map_contains(t, k);
        let j = choose|j: int| 0 <= j < t.len() && t[j].0@ == k;
        lemma_entries_map_value(t, j);
        if j != i {
            lemma_entries_map_value(s, j);
        }
    }
    assert(entries_map(t) =~= entries_map(s).insert(e.0@, e.1));
}

/// Appending an entry with a new key keeps keys distinct.
proof fn lemma_push_distinct(s: Seq<(String, TemplateInfo)>, e: (String, TemplateInfo))
    requires
        distinct_keys(s),
        !entries_map(s).contains_key(e.0@),
    ensures
        distinct_keys(s.push(e)),
        entries_map(s.push(e)) == entries_map(s).insert(e.0@, e.1),
{
    let t = s.push(e);
    lemma_entries_map_contains(s, e.0@);
    assert forall|a: int, b: int| 0 <= a < b < t.len() implies t[a].0@ != t[b].0@ by {
        if b == s.len() {
            assert(t[a] == s[a]);
        } else {
            assert(t[a] == s[a]);
            assert(t[b] == s[b]);
        }
    }
    assert(t.drop_last() =~= s);
}

/// Position of the entry with key `key`, if any.
fn find_key(entries: &Vec<(String, TemplateInfo)>, key: &str) -> (r: Option<usize>)
    ensures
        r matches Some(i) ==> i < entries@.len() && entries@[i as int].0@ == key@,
        r is None ==> forall|i: int| 0 <= i < entries@.len() ==> entries@[i].0@ != key@,
{
    let mut i: usize = 0;
    while i < entries.len()
        invariant
            i <= entries@.len(),
            forall|j: int| 0 <= j < i ==> entries@[j].0@ != key@,
        decreases entries.len() - i,
    {
        if str_eq(entries[i].0.as_str(), key) {
            return Some(i);
        }
        i = i + 1;
    }
    None
}

/// Whether an index accepts `manifest` for registration: the manifest is
/// valid and its name is not registered yet.
pub open spec fn registration_accepted(
    index: Map<Seq<char>, TemplateInfo>,
    manifest: TemplateManifest,
) -> bool {
    validation_outcome(manifest) is Ok && !index.contains_key(manifest.name@)
}

/// Template registry.
pub struct TemplateRegistry {
    registry_dir: String,
    templates_dir: String,
    entries: Vec<(String, TemplateInfo)>,
}

impl TemplateRegistry {
    #[verifier::type_invariant]
    spec fn well_formed(self) -> bool {
        &&& distinct_keys(self.entries@)
        &&& names_match(self.entries@)
    }

    /// The registered templates, by name.
    pub closed spec fn index(self) -> Map<Seq<char>, TemplateInfo> {
        entries_map(self.entries@)
    }

    /// The registered templates, in the order of the index.
    pub closed spec fn listing(self) -> Seq<TemplateInfo> {
        self.entries@.map_values(|e: (String, TemplateInfo)| e.1)
    }

    /// The directory holding the index and the manifests.
    pub closed spec fn registry_dir_view(self) -> Seq<char> {
        self.registry_dir@
    }

    /// The directory holding the template images.
    pub closed spec fn templates_dir_view(self) -> Seq<char> {
        self.templates_dir@
    }

    /// An empty registry rooted at `base_dir`: the index and manifests live
    /// under `base_dir/registry`, the template images under `base_dir/templates`.
    pub fn new(base_dir: &str) -> (r: Self)
        ensures
            r.index() == Map::<Seq<char>, TemplateInfo>::empty(),
            r.registry_dir_view() == path_join(base_dir@, "registry"@),
            r.templates_dir_view() == path_join(base_dir@, "templates"@),
    {
        let r = TemplateRegistry {
            registry_dir: join_path(base_dir, "registry"),
            templates_dir: join_path(base_dir, "templates"),
            entries: Vec::new(),
        };
        assert(r.index() =~= Map::<Seq<char>, TemplateInfo>::empty());
        r
    }

    /// The directory holding the index and the manifests.
    pub fn registry_dir(&self) -> (r: &str)
        ensures
            r@ == self.registry_dir_view(),
    {
        self.registry_dir.as_str()
    }

    /// The directory holding the template images.
    pub fn templates_dir(&self) -> (r: &str)
        ensures
            r@ == self.templates_dir_view(),
    {
        self.templates_dir.as_str()
    }

    /// Where the index is stored (`<registry_dir>/index.json`).
    pub fn index_path(&self) -> (r: String)
        ensures
            r@ == path_join(self.registry_dir_view(), "index.json"@),
    {
        join_path(self.registry_dir.as_str(), "index.json")
    }

    /// Where the manifest of template `name` is stored (`<registry_dir>/<name>.yaml`).
    pub fn manifest_path(&self, name: &str) -> (r: String)
        ensures
            r@ == path_join(self.registry_dir_view(), name@ + ".yaml"@),
    {
        let file = concat2(name, ".yaml");
        join_path(self.registry_dir.as_str(), file.as_str())
    }

    /// Where the image of template `name` is stored (`<templates_dir>/<name>.qcow2`).
    pub fn template_path(&self, name: &str) -> (r: String)
        ensures
            r@ == path_join(self.templates_dir_view(), name@ + ".qcow2"@),
    {
        let file = concat2(name, ".qcow2");
        join_path(self.templates_dir.as_str(), file.as_str())
    }

    /// Position of the entry with key `key`, if any.
    fn find(&self, key: &str) -> (r: Option<usize>)
        ensures
            r matches Some(i) ==> i < self.entries@.len() && self.entries@[i as int].0@ == key@,
            r is None ==> forall|i: int|
                0 <= i < self.entries@.len() ==> self.entries@[i].0@ != key@,
    {
        find_key(&self.entries, key)
    }

    /// Check if template exists.
    pub fn has_template(&self, name: &str) -> (r: bool)
        ensures
            r == self.index().contains_key(name@),
    {
        proof {
            lemma_entries_map_contains(self.entries@, name@);
        }
        self.find(name).is_some()
    }

    /// Get template by name.
    pub fn get_template(&self, name: &str) -> (r: Result<TemplateInfo, RegistryError>)
        ensures
            r is Ok <==> self.index().contains_key(name@),
            r matches Ok(info) ==> info == self.index()[name@] && info.name@ == name@,
            r matches Err(e) ==> e matches RegistryError::NotFound(n) && n@ == name@,
    {
        proof {
            use_type_invariant(self);
            lemma_entries_map_contains(self.entries@, name@);
            if self.index().contains_key(name@) {
                lemma_names_match_index(self.entries@, name@);
            }
        }
        match self.find(name) {
            Some(i) => {
                proof {
                    lemma_entries_map_value(self.entries@, i as int);
                }
                Ok(self.entries[i].1.duplicate())
            },
            None => Err(RegistryError::NotFound(owned(name))),
        }
    }

    /// List all templates: each registered record once, under its name.
    pub fn list_templates(&self) -> (r: Vec<TemplateInfo>)
        ensures
            r@ == self.listing(),
            forall|i: int|
                0 <= i < r@.len() ==> self.index().contains_key((#[trigger] r@[i]).name@)
                    && self.index()[r@[i].name@] == r@[i],
            forall|k: Seq<char>|
                self.index().contains_key(k) ==> exists|i: int|
                    0 <= i < r@.len() && (#[trigger] r@[i]).name@ == k,
            forall|i: int, j: int|
                0 <= i < j < r@.len() ==> (#[trigger] r@[i]).name@ != (#[trigger] r@[j]).name@,
    {
        proof {
            use_type_invariant(self);
            let s = self.entries@;
            assert forall|i: int| 0 <= i < s.len() implies self.index().contains_key(
                (#[trigger] self.listing()[i]).name@,
            ) && self.index()[self.listing()[i].name@] == self.listing()[i] by {
                lemma_entries_map_value(s, i);
                assert(s[i].0@ == s[i].1.name@);
            }
            assert forall|k: Seq<char>| self.index().contains_key(k) implies exists|i: int|
                0 <= i < s.len() && (#[trigger] self.listing()[i]).name@ == k by {
                lemma_entries_map_contains(s, k);
                let i = choose|i: int| 0 <= i < s.len() && s[i].0@ == k;
                assert(s[i].0@ == s[i].1.name@);
                assert(self.listing()[i].name@ == k);
            }
            assert forall|i: int, j: int| 0 <= i < j < s.len() implies (#[trigger] self.listing()[i]).name@
                != (#[trigger] self.listing()[j]).name@ by {
                assert(s[i].0@ == s[i].1.name@);
                assert(s[j].0@ == s[j].1.name@);
            }
        }
        let mut r: Vec<TemplateInfo> = Vec::new();
        let mut i: usize = 0;
        while i < self.entries.len()
            invariant
                i <= self.entries@.len(),
                r@ == self.listing().take(i as int),
            decreases self.entries.len() - i,
        {
            r.push(self.entries[i].1.duplicate());
            i = i + 1;
            assert(r@ =~= self.listing().take(i as int));
        }
        assert(self.listing().take(self.entries@.len() as int) =~= self.listing());
        r
    }

    /// The index entries (name, record), in order.
    pub fn entries(&self) -> (r: Vec<(String, TemplateInfo)>)
        ensures
            r@.len() == self.listing().len(),
            entries_map(r@) == self.index(),
            forall|i: int| 0 <= i < r@.len() ==> (#[trigger] r@[i]).1 == self.listing()[i],
    {
        let mut r: Vec<(String, TemplateInfo)> = Vec::new();
        let mut i: usize = 0;
        while i < self.entries.len()
            invariant
                i <= self.entries@.len(),
                r@ == self.entries@.take(i as int),
            decreases self.entries.len() - i,
        {
            let k = self.entries[i].0.clone();
            let v = self.entries[i].1.duplicate();
            r.push((k, v));
            i = i + 1;
            assert(r@ =~= self.entries@.take(i as int));
        }
        assert(self.entries@.take(self.entries@.len() as int) =~= self.entries@);
        r
    }

    /// Records `info` under its name, replacing any record already there.
    pub fn restore_entry(&mut self, info: TemplateInfo)
        ensures
            final(self).index() == old(self).index().insert(info.name@, info),
            final(self).registry_dir_view() == old(self).registry_dir_view(),
            final(self).templates_dir_view() == old(self).templates_dir_view(),
    {
        proof {
            use_type_invariant(&*self);
        }
        let key = info.name.clone();
        let mut entries: Vec<(String, TemplateInfo)> = Vec::new();
        std::mem::swap(&mut entries, &mut self.entries);
        let ghost s = entries@;
        let found = find_key(&entries, key.as_str());
        proof {
            lemma_entries_map_contains(s, key@);
        }
        let ghost k = key@;
        let ghost e = (key, info);
        match found {
            Some(j) => {
                assert(entries@[j as int].0@ == k);
                proof {
                    lemma_entries_map_update(s, j as int, e);
                }
                entries.set(j, (key, info));
                assert(entries@ == s.update(j as int, e));
                assert forall|i: int| 0 <= i < entries@.len() implies (#[trigger] entries@[i]).0@
                    == entries@[i].1.name@ by {
                    if i != j {
                        assert(entries@[i] == s[i]);
                    }
                }
            },
            None => {
                proof {
                    lemma_push_distinct(s, e);
                }
                entries.push((key, info));
                assert(entries@ == s.push(e));
                assert forall|i: int| 0 <= i < entries@.len() implies (#[trigger] entries@[i]).0@
                    == entries@[i].1.name@ by {
                    if i < s.len() {
                        assert(entries@[i] == s[i]);
                    }
                }
            },
        }
        self.entries = entries;
    }

    /// Removes the record under `key`, if any, and returns it.
    fn remove_entry(&mut self, key: &str) -> (r: Option<TemplateInfo>)
        ensures
            r is Some <==> old(self).index().contains_key(key@),
            r matches Some(info) ==> info == old(self).index()[key@],
            final(self).index() == old(self).index().remove(key@),
            final(self).registry_dir_view() == old(self).registry_dir_view(),
            final(self).templates_dir_view() == old(self).templates_dir_view(),
    {
        proof {
            use_type_invariant(&*self);
            lemma_entries_map_contains(self.entries@, key@);
        }
        match self.find(key) {
            Some(i) => {
                let mut entries: Vec<(String, TemplateInfo)> = Vec::new();
                std::mem::swap(&mut entries, &mut self.entries);
                let ghost s = entries@;
                proof {
                    lemma_entries_map_value(s, i as int);
                    lemma_entries_map_remove(s, i as int);
                }
                let (_, info) = entries.remove(i);
                assert(entries@ == s.remove(i as int));
                assert forall|a: int| 0 <= a < entries@.len() implies (#[trigger] entries@[a]).0@
                    == entries@[a].1.name@ by {
                    if a < i {
                        assert(entries@[a] == s[a]);
                    } else {
                        assert(entries@[a] == s[a + 1]);
                    }
                }
                self.entries = entries;
                Some(info)
            },
            None => {
                assert(self.index().remove(key@) =~= self.index());
                None
            },
        }
    }

    /// Whether `manifest` may be registered: it must be valid and its name
    /// must not be registered yet.
    pub fn check_registration(&self, manifest: &TemplateManifest) -> (r: Result<(), RegistryError>)
        ensures
            r is Ok <==> registration_accepted(self.index(), *manifest),
            match validation_outcome(*manifest) {
                Err(e) => r matches Err(RegistryError::Invalid(m)) && m@ == manifest_error_text(e),
                Ok(()) => if self.index().contains_key(manifest.name@) {
                    r matches Err(RegistryError::AlreadyExists(n)) && n@ == manifest.name@
                } else {
                    r is Ok
                },
            },
    {
        match manifest.validate() {
            Err(e) => Err(RegistryError::Invalid(e.message())),
            Ok(()) => {
                if self.has_template(manifest.name.as_str()) {
                    Err(RegistryError::AlreadyExists(manifest.name.clone()))
                } else {
                    Ok(())
                }
            },
        }
    }

    /// Registers a template whose image has the bytes `contents`. The record
    /// names the image at [`Self::template_path`], with the size and checksum of
    /// `contents`, marked verified.
    pub fn register_template(&mut self, manifest: &TemplateManifest, contents: &[u8]) -> (r: Result<
        TemplateInfo,
        RegistryError,
    >)
        ensures
            r is Ok <==> registration_accepted(old(self).index(), *manifest),
            match validation_outcome(*manifest) {
                Err(e) => r matches Err(RegistryError::Invalid(m)) && m@ == manifest_error_text(e),
                Ok(()) => if old(self).index().contains_key(manifest.name@) {
                    r matches Err(RegistryError::AlreadyExists(n)) && n@ == manifest.name@
                } else {
                    r is Ok
                },
            },
            r is Err ==> final(self).index() == old(self).index(),
            r matches Ok(info) ==> {
                &&& info.name@ == manifest.name@
                &&& info.version@ == manifest.version@
                &&& info.path@ == path_join(old(self).templates_dir_view(), manifest.name@ + ".qcow2"@)
                &&& info.size_bytes == contents@.len()
                &&& info.checksum@ == checksum_of(contents@)
                &&& info.verified
                &&& final(self).index() == old(self).index().insert(manifest.name@, info)
            },
            final(self).registry_dir_view() == old(self).registry_dir_view(),
            final(self).templates_dir_view() == old(self).templates_dir_view(),
    {
        match self.check_registration(manifest) {
            Err(e) => Err(e),
            Ok(()) => {
                let checksum = checksum_hex(contents);
                let info = TemplateInfo {
                    name: manifest.name.clone(),
                    version: manifest.version.clone(),
                    path: self.template_path(manifest.name.as_str()),
                    size_bytes: contents.len() as u64,
                    checksum,
                    verified: true,
                };
                let record = info.duplicate();
                self.restore_entry(record);
                Ok(info)
            },
        }
    }

    /// Whether the image bytes `contents` match the checksum recorded for `name`.
    pub fn verify_template(&self, name: &str, contents: &[u8]) -> (r: Result<bool, RegistryError>)
        ensures
            r is Ok <==> self.index().contains_key(name@),
            r matches Ok(b) ==> b == (checksum_of(contents@) == self.index()[name@].checksum@),
            r matches Err(e) ==> e matches RegistryError::NotFound(n) && n@ == name@,
    {
        match self.get_template(name) {
            Err(e) => Err(e),
            Ok(info) => {
                let actual = checksum_hex(contents);
                Ok(str_eq(actual.as_str(), info.checksum.as_str()))
            },
        }
    }

    /// Deletes the record of template `name` and returns it.
    pub fn delete_template(&mut self, name: &str) -> (r: Result<TemplateInfo, RegistryError>)
        ensures
            r is Ok <==> old(self).index().contains_key(name@),
            r matches Ok(info) ==> info == old(self).index()[name@],
            r matches Err(e) ==> e matches RegistryError::NotFound(n) && n@ == name@,
            final(self).index() == old(self).index().remove(name@),
            final(self).registry_dir_view() == old(self).registry_dir_view(),
            final(self).templates_dir_view() == old(self).templates_dir_view(),
    {
        match self.remove_entry(name) {
            Some(info) => Ok(info),
            None => Err(RegistryError::NotFound(owned(name))),
        }
    }
}

// ---------------------------------------------------------------------------
// Laws of the registry
// ---------------------------------------------------------------------------

/// A registered template is found under its name with the record that
/// registering returned, and the image bytes it was registered with verify
/// against the recorded checksum.
pub proof fn law_register_then_lookup(
    before: Map<Seq<char>, TemplateInfo>,
    info: TemplateInfo,
    contents: Seq<u8>,
)
    requires
        info.checksum@ == checksum_of(contents),
    ensures
        before.insert(info.name@, info).contains_key(info.name@),
        before.insert(info.name@, info)[info.name@] == info,
        checksum_of(contents) == before.insert(info.name@, info)[info.name@].checksum@,
{
}

/// Registering never overwrites: once a template is registered, no manifest
/// of the same name is accepted for registration again.
pub proof fn law_register_twice_finds_name_taken(
    before: Map<Seq<char>, TemplateInfo>,
    info: TemplateInfo,
    again: TemplateManifest,
)
    requires
        again.name@ == info.name@,
    ensures
        before.insert(info.name@, info).contains_key(again.name@),
        !registration_accepted(before.insert(info.name@, info), again),
{
}

/// Deleting a template removes exactly that name: it is no longer found,
/// and every other template keeps its record.
pub proof fn law_delete_then_absent(before: Map<Seq<char>, TemplateInfo>, name: Seq<char>)
    ensures
        !before.remove(name).contains_key(name),
        forall|k: Seq<char>|
            k != name ==> (#[trigger] before.remove(name).contains_key(k) == before.contains_key(k)),
        forall|k: Seq<char>|
            k != name && before.contains_key(k) ==> #[trigger] before.remove(name)[k] == before[k],
{
}

/// Registering a new template and deleting it again leaves the index as it was.
pub proof fn law_register_then_delete_restores(
    before: Map<Seq<char>, TemplateInfo>,
    info: TemplateInfo,
)
    requires
        !before.contains_key(info.name@),
    ensures
        before.insert(info.name@, info).remove(info.name@) == before,
{
    assert(before.insert(info.name@, info).remove(info.name@) =~= before);
}

} // verus!
