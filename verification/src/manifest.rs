//! The manifest document and its two mutation operations: `add_member`, a
//! dedup-aware append to `workspace.members`, and `add_patch`, an upsert into
//! `patch.crates-io`. Both create the sections they need lazily and reject a
//! document in which a section already exists with the wrong shape.

use vstd::prelude::*;
use vstd::string::*;

use crate::error::Ros2wsError;
use crate::toml_doc;
use crate::toml_doc::NodeShape;
use crate::validate::{ensure_abs_path, is_abs_path, str_eq};

verus! {

/// A workspace manifest document, owned for the span of one edit cycle.
pub struct Manifest {
    doc: toml_edit::DocumentMut,
}

/// What `add_member` leaves in the member list: the list unchanged when the
/// path is already present, and the path appended at the end otherwise.
pub open spec fn member_add(s: Seq<Option<Seq<char>>>, p: Seq<char>) -> Seq<Option<Seq<char>>> {
    if s.contains(Some(p)) {
        s
    } else {
        s.push(Some(p))
    }
}

/// What `add_patch` leaves in the override table: the record for the crate
/// name set to the new path, replacing any earlier record wholesale.
pub open spec fn patch_add(m: Map<Seq<char>, Seq<char>>, name: Seq<char>, path: Seq<char>) -> Map<
    Seq<char>,
    Seq<char>,
> {
    m.insert(name, path)
}

/// What `add_patch` leaves of the override keys' order: unchanged when the
/// crate name already has a record, the name appended at the end otherwise.
pub open spec fn key_upsert(ks: Seq<Seq<char>>, name: Seq<char>) -> Seq<Seq<char>> {
    if ks.contains(name) {
        ks
    } else {
        ks.push(name)
    }
}

/// The manifest the parser yields for `text`; meaningful only while
/// `toml_doc::toml_parses(text)`.
pub closed spec fn manifest_of(text: Seq<char>) -> Manifest {
    Manifest { doc: toml_doc::toml_doc_of(text) }
}

/// The error `add_member` and `add_patch` report when an existing node at
/// `key` does not have the expected `kind`.
pub open spec fn schema_err(e: Ros2wsError, key: Seq<char>, kind: Seq<char>) -> bool {
    e matches Ros2wsError::InvalidManifestFile(k, t) && k@ == key && t@ == kind
}

impl Manifest {
    /// The text this document serializes to.
    pub closed spec fn text(self) -> Seq<char> {
        toml_doc::doc_str(self.doc)
    }

    /// The shape of the root `workspace` entry: absent, a table, or other.
    pub closed spec fn workspace_kind(self) -> NodeShape {
        toml_doc::workspace_kind(self.doc)
    }

    /// The shape of `workspace.members` (an array when as expected),
    /// meaningful while `workspace` is a table.
    pub closed spec fn members_kind(self) -> NodeShape {
        toml_doc::members_kind(self.doc)
    }

    /// The raw entries of the `workspace.members` array.
    pub closed spec fn member_entries(self) -> Seq<Option<Seq<char>>> {
        toml_doc::member_entries(self.doc)
    }

    /// The shape of the root `patch` entry.
    pub closed spec fn patch_kind(self) -> NodeShape {
        toml_doc::patch_kind(self.doc)
    }

    /// The shape of `patch.crates-io`, meaningful while `patch` is a table.
    pub closed spec fn crates_io_kind(self) -> NodeShape {
        toml_doc::crates_io_kind(self.doc)
    }

    /// The raw override records of the `patch.crates-io` table.
    pub closed spec fn patch_entries(self) -> Map<Seq<char>, Seq<char>> {
        toml_doc::patch_entries(self.doc)
    }

    /// The raw key order of the `patch.crates-io` table (empty while the
    /// table is missing or of another shape).
    pub closed spec fn patch_key_seq(self) -> Seq<Seq<char>> {
        toml_doc::crates_io_keys(self.doc)
    }

    /// The text of everything outside the two modeled sections: what every
    /// mutation must leave alone.
    pub closed spec fn rest(self) -> Seq<char> {
        toml_doc::rest_text(self.doc)
    }

    /// The text of everything but the member list and the override table
    /// themselves: beside `rest`, the sibling keys inside `[workspace]` and
    /// `[patch]` and those tables' headers.
    pub closed spec fn frame(self) -> Seq<char> {
        toml_doc::frame_text(self.doc)
    }

    /// Whether the `patch` table prints no header of its own while it holds
    /// no direct key-values; meaningful while `patch` is a table.
    pub closed spec fn patch_implicit(self) -> bool {
        toml_doc::patch_implicit(self.doc)
    }

    /// Both levels above the member list are absent or well shaped, so a
    /// mutation can reach (or create) the list.
    pub open spec fn members_reachable(self) -> bool {
        &&& !(self.workspace_kind() is Other)
        &&& !(self.workspace_kind() is Expected && self.members_kind() is Other)
    }

    /// Both levels above the override table are absent or well shaped.
    pub open spec fn patches_reachable(self) -> bool {
        &&& !(self.patch_kind() is Other)
        &&& !(self.patch_kind() is Expected && self.crates_io_kind() is Other)
    }

    /// The member list the document effectively holds: the entries of
    /// `workspace.members` when both levels are present with the right shape,
    /// and the empty list while either is still absent.
    pub open spec fn members_view(self) -> Seq<Option<Seq<char>>> {
        if self.workspace_kind() is Expected && self.members_kind() is Expected {
            self.member_entries()
        } else {
            Seq::empty()
        }
    }

    /// The override records the document effectively holds.
    pub open spec fn patches_view(self) -> Map<Seq<char>, Seq<char>> {
        if self.patch_kind() is Expected && self.crates_io_kind() is Expected {
            self.patch_entries()
        } else {
            Map::empty()
        }
    }

    /// The order of the override keys the document effectively holds.
    pub open spec fn patch_keys_view(self) -> Seq<Seq<char>> {
        if self.patch_kind() is Expected && self.crates_io_kind() is Expected {
            self.patch_key_seq()
        } else {
            Seq::empty()
        }
    }

    /// Both documents hold the same sections: same shapes, same member list,
    /// same override records. (They may still print differently: creating the
    /// patch table on demand marks it implicit, which is a matter of layout
    /// alone.)
    pub open spec fn same_sections(self, other: Manifest) -> bool {
        &&& self.workspace_kind() == other.workspace_kind()
        &&& self.members_kind() == other.members_kind()
        &&& self.member_entries() == other.member_entries()
        &&& self.patch_kind() == other.patch_kind()
        &&& self.crates_io_kind() == other.crates_io_kind()
        &&& self.patch_entries() == other.patch_entries()
        &&& self.patch_key_seq() == other.patch_key_seq()
        &&& self.rest() == other.rest()
    }

    /// An empty document with no sections.
    pub fn init() -> (m: Manifest)
        ensures
            m.text() == Seq::<char>::empty(),
            m.workspace_kind() is Absent,
            m.patch_kind() is Absent,
            m.members_view() == Seq::<Option<Seq<char>>>::empty(),
            m.patches_view() == Map::<Seq<char>, Seq<char>>::empty(),
    {
        Manifest { doc: toml_doc::new_doc() }
    }

    /// Parses manifest text, succeeding exactly when the text is valid TOML.
    /// While unmutated, the manifest serializes back to the given text — less
    /// a leading byte-order mark, which the parser skips — provided the text
    /// uses bare line feeds and ends with one: the parser re-emits each
    /// line-ending newline as a single line feed and terminates an unfinished
    /// last line.
    pub fn from_toml_str(text: &str) -> (r: Result<Manifest, Ros2wsError>)
        ensures
            r is Ok <==> toml_doc::toml_parses(text@),
            r matches Ok(m) ==> m == manifest_of(text@),
            toml_doc::lf_normalized(text@) ==> (r matches Ok(m) ==> m.text()
                == toml_doc::bom_stripped(text@)),
            r matches Err(e) ==> e is ParseFailed,
    {
        match toml_doc::parse_doc(text) {
            Ok(doc) => Ok(Manifest { doc }),
            Err(msg) => Err(Ros2wsError::ParseFailed(msg)),
        }
    }

    /// Serializes the document, preserving the formatting of every region no
    /// mutation touched.
    pub fn to_toml_string(&self) -> (r: String)
        ensures
            r@ == self.text(),
    {
        toml_doc::doc_to_string(&self.doc)
    }

    /// Returns once `workspace` is a table, creating an empty one if the key
    /// was absent; fails when the key holds anything but a table.
    fn get_workspace_section(&mut self) -> (r: Result<(), Ros2wsError>)
        ensures
            r is Ok <==> !(old(self).workspace_kind() is Other),
            final(self).patch_key_seq() == old(self).patch_key_seq(),
            final(self).rest() == old(self).rest(),
            r matches Err(e) ==> schema_err(e, "workspace"@, "table"@) && *final(self) == *old(
                self,
            ),
            r is Ok ==> {
                &&& final(self).workspace_kind() is Expected
                &&& (old(self).workspace_kind() is Expected ==> *final(self) == *old(self))
                &&& (old(self).workspace_kind() is Absent ==> {
                    &&& final(self).members_kind() is Absent
                    &&& final(self).patch_kind() == old(self).patch_kind()
                    &&& final(self).crates_io_kind() == old(self).crates_io_kind()
                    &&& final(self).patch_entries() == old(self).patch_entries()
                })
            },
    {
        if toml_doc::open_workspace(&mut self.doc) {
            Ok(())
        } else {
            Err(Ros2wsError::InvalidManifestFile(
                String::from_str("workspace"),
                String::from_str("table"),
            ))
        }
    }

    /// Returns once `workspace.members` is an array, creating the missing
    /// levels; fails when either level holds a node of the wrong shape.
    fn get_workspace_members_section(&mut self) -> (r: Result<(), Ros2wsError>)
        ensures
            r is Ok <==> old(self).members_reachable(),
            final(self).patch_key_seq() == old(self).patch_key_seq(),
            final(self).rest() == old(self).rest(),
            old(self).workspace_kind() is Expected && old(self).members_kind() is Expected
                ==> *final(self) == *old(self),
            r matches Err(e) ==> *final(self) == *old(self) && (if old(
                self,
            ).workspace_kind() is Other {
                schema_err(e, "workspace"@, "table"@)
            } else {
                schema_err(e, "workspace.members"@, "array"@)
            }),
            r is Ok ==> {
                &&& final(self).workspace_kind() is Expected
                &&& final(self).members_kind() is Expected
                &&& final(self).member_entries() == old(self).members_view()
                &&& final(self).patch_kind() == old(self).patch_kind()
                &&& final(self).crates_io_kind() == old(self).crates_io_kind()
                &&& final(self).patch_entries() == old(self).patch_entries()
            },
    {
        match self.get_workspace_section() {
            Err(e) => Err(e),
            Ok(()) => {
                if toml_doc::open_members(&mut self.doc) {
                    Ok(())
                } else {
                    Err(Ros2wsError::InvalidManifestFile(
                        String::from_str("workspace.members"),
                        String::from_str("array"),
                    ))
                }
            },
        }
    }

    /// Registers `path` as a workspace member. The path must be absolute; a
    /// path already present is not added again, and existing entries keep
    /// their order.
    pub fn add_member(&mut self, path: &str) -> (r: Result<(), Ros2wsError>)
        ensures
            r is Ok <==> is_abs_path(path@) && old(self).members_reachable(),
            final(self).patch_key_seq() == old(self).patch_key_seq(),
            final(self).rest() == old(self).rest(),
            old(self).workspace_kind() is Expected && old(self).members_kind() is Expected ==>
                final(self).frame() == old(self).frame(),
            old(self).members_view().contains(Some(path@)) && is_abs_path(path@) ==> *final(self)
                == *old(self),
            !is_abs_path(path@) ==> (r matches Err(e) && e matches
                Ros2wsError::NotAbsolutePath(p) && p@ == path@) && *final(self) == *old(self),
            is_abs_path(path@) && !old(self).members_reachable() ==> (r matches Err(e)
                && *final(self) == *old(self) && (if old(self).workspace_kind() is Other {
                schema_err(e, "workspace"@, "table"@)
            } else {
                schema_err(e, "workspace.members"@, "array"@)
            })),
            r is Ok ==> {
                &&& final(self).workspace_kind() is Expected
                &&& final(self).members_kind() is Expected
                &&& final(self).members_view() == member_add(old(self).members_view(), path@)
                &&& final(self).patch_kind() == old(self).patch_kind()
                &&& final(self).crates_io_kind() == old(self).crates_io_kind()
                &&& final(self).patch_entries() == old(self).patch_entries()
                &&& final(self).patches_view() == old(self).patches_view()
            },
    {
        if let Err(e) = ensure_abs_path(path) {
            return Err(e);
        }
        if let Err(e) = self.get_workspace_members_section() {
            return Err(e);
        }
        let items = toml_doc::read_members(&self.doc);
        if !contains_member(&items, path) {
            toml_doc::push_member(&mut self.doc, path);
        }
        Ok(())
    }

    /// Returns once `patch` is a table (marked implicit, so an empty one
    /// prints no header), creating it if absent; fails when the key holds
    /// anything but a table.
    fn get_patch_section(&mut self) -> (r: Result<(), Ros2wsError>)
        ensures
            r is Ok <==> !(old(self).patch_kind() is Other),
            final(self).patch_key_seq() == old(self).patch_key_seq(),
            final(self).rest() == old(self).rest(),
            old(self).patch_kind() is Absent || old(self).patch_implicit() ==> final(self).frame()
                == old(self).frame(),
            r is Ok ==> final(self).patch_implicit(),
            r matches Err(e) ==> schema_err(e, "patch"@, "table"@) && *final(self) == *old(self),
            r is Ok ==> {
                &&& final(self).patch_kind() is Expected
                &&& final(self).workspace_kind() == old(self).workspace_kind()
                &&& final(self).members_kind() == old(self).members_kind()
                &&& final(self).member_entries() == old(self).member_entries()
                &&& (old(self).patch_kind() is Expected ==> final(self).crates_io_kind() == old(
                    self,
                ).crates_io_kind() && final(self).patch_entries() == old(self).patch_entries())
                &&& (old(self).patch_kind() is Absent ==> final(self).crates_io_kind() is Absent)
            },
    {
        if toml_doc::open_patch(&mut self.doc) {
            Ok(())
        } else {
            Err(Ros2wsError::InvalidManifestFile(
                String::from_str("patch"),
                String::from_str("table"),
            ))
        }
    }

    /// Returns once `patch.crates-io` is a table, creating the missing
    /// levels; fails when either level holds a node of the wrong shape.
    fn get_patch_crates_io_section(&mut self) -> (r: Result<(), Ros2wsError>)
        ensures
            r is Ok <==> old(self).patches_reachable(),
            final(self).rest() == old(self).rest(),
            old(self).patch_kind() is Absent || old(self).patch_implicit() ==> final(self).frame()
                == old(self).frame(),
            r matches Err(e) ==> (if old(self).patch_kind() is Other {
                schema_err(e, "patch"@, "table"@) && *final(self) == *old(self)
            } else {
                schema_err(e, "patch.crates-io"@, "table"@) && final(self).same_sections(
                    *old(self),
                )
            }),
            r is Ok ==> {
                &&& final(self).patch_kind() is Expected
                &&& final(self).crates_io_kind() is Expected
                &&& final(self).patch_implicit()
                &&& final(self).patch_entries() == old(self).patches_view()
                &&& final(self).patch_key_seq() == old(self).patch_keys_view()
                &&& final(self).workspace_kind() == old(self).workspace_kind()
                &&& final(self).members_kind() == old(self).members_kind()
                &&& final(self).member_entries() == old(self).member_entries()
            },
    {
        match self.get_patch_section() {
            Err(e) => Err(e),
            Ok(()) => {
                if toml_doc::open_crates_io(&mut self.doc) {
                    Ok(())
                } else {
                    Err(Ros2wsError::InvalidManifestFile(
                        String::from_str("patch.crates-io"),
                        String::from_str("table"),
                    ))
                }
            },
        }
    }

    /// Sets the override record for `crates_name` to `{ path = <path> }`,
    /// inserting or replacing: re-adding a crate keeps exactly one record for
    /// it, holding the last path supplied. The crate name must be non-empty
    /// and the path absolute.
    pub fn add_patch(&mut self, crates_name: &str, path: &str) -> (r: Result<(), Ros2wsError>)
        ensures
            r is Ok <==> crates_name@.len() > 0 && is_abs_path(path@) && old(
                self,
            ).patches_reachable(),
            final(self).rest() == old(self).rest(),
            old(self).patch_kind() is Absent || old(self).patch_implicit() ==> final(self).frame()
                == old(self).frame(),
            crates_name@.len() == 0 ==> r == Err::<(), Ros2wsError>(Ros2wsError::EmptyCrateName)
                && *final(self) == *old(self),
            crates_name@.len() > 0 && !is_abs_path(path@) ==> (r matches Err(e) && e matches
                Ros2wsError::NotAbsolutePath(p) && p@ == path@) && *final(self) == *old(self),
            crates_name@.len() > 0 && is_abs_path(path@) && !old(self).patches_reachable() ==> (
            r matches Err(e) && (if old(self).patch_kind() is Other {
                schema_err(e, "patch"@, "table"@) && *final(self) == *old(self)
            } else {
                schema_err(e, "patch.crates-io"@, "table"@) && final(self).same_sections(
                    *old(self),
                )
            })),
            r is Ok ==> {
                &&& final(self).patch_kind() is Expected
                &&& final(self).crates_io_kind() is Expected
                &&& final(self).patches_view() == patch_add(
                    old(self).patches_view(),
                    crates_name@,
                    path@,
                )
                &&& final(self).patch_keys_view() == key_upsert(
                    old(self).patch_keys_view(),
                    crates_name@,
                )
                &&& final(self).workspace_kind() == old(self).workspace_kind()
                &&& final(self).members_kind() == old(self).members_kind()
                &&& final(self).member_entries() == old(self).member_entries()
                &&& final(self).members_view() == old(self).members_view()
            },
    {
        if crates_name.unicode_len() == 0 {
            return Err(Ros2wsError::EmptyCrateName);
        }
        if let Err(e) = ensure_abs_path(path) {
            return Err(e);
        }
        if let Err(e) = self.get_patch_crates_io_section() {
            return Err(e);
        }
        toml_doc::set_patch(&mut self.doc, crates_name, path);
        Ok(())
    }

    /// The member list, each entry as its string content (`None` for an entry
    /// of another type); fails as `add_member` does when a section above the
    /// list has the wrong shape.
    pub fn members(&self) -> (r: Result<Vec<Option<String>>, Ros2wsError>)
        ensures
            r is Ok <==> self.members_reachable(),
            r matches Ok(v) ==> v.deep_view() == self.members_view(),
            r matches Err(e) ==> (if self.workspace_kind() is Other {
                schema_err(e, "workspace"@, "table"@)
            } else {
                schema_err(e, "workspace.members"@, "array"@)
            }),
    {
        match toml_doc::probe_workspace(&self.doc) {
            NodeShape::Absent => {
                let v: Vec<Option<String>> = Vec::new();
                assert(v.deep_view() =~= self.members_view());
                Ok(v)
            },
            NodeShape::Other => Err(Ros2wsError::InvalidManifestFile(
                String::from_str("workspace"),
                String::from_str("table"),
            )),
            NodeShape::Expected => match toml_doc::probe_members(&self.doc) {
                NodeShape::Absent => {
                    let v: Vec<Option<String>> = Vec::new();
                    assert(v.deep_view() =~= self.members_view());
                    Ok(v)
                },
                NodeShape::Other => Err(Ros2wsError::InvalidManifestFile(
                    String::from_str("workspace.members"),
                    String::from_str("array"),
                )),
                NodeShape::Expected => Ok(toml_doc::read_members(&self.doc)),
            },
        }
    }

    /// The path of the override record for `crates_name`, or `None` when no
    /// such record exists; fails as `add_patch` does when a section above the
    /// table has the wrong shape.
    pub fn patch_path(&self, crates_name: &str) -> (r: Result<Option<String>, Ros2wsError>)
        ensures
            r is Ok <==> self.patches_reachable(),
            r matches Ok(p) ==> {
                &&& p is Some <==> self.patches_view().dom().contains(crates_name@)
                &&& (p matches Some(s) ==> s@ == self.patches_view()[crates_name@])
            },
            r matches Err(e) ==> (if self.patch_kind() is Other {
                schema_err(e, "patch"@, "table"@)
            } else {
                schema_err(e, "patch.crates-io"@, "table"@)
            }),
    {
        match toml_doc::probe_patch(&self.doc) {
            NodeShape::Absent => Ok(None),
            NodeShape::Other => Err(Ros2wsError::InvalidManifestFile(
                String::from_str("patch"),
                String::from_str("table"),
            )),
            NodeShape::Expected => match toml_doc::probe_crates_io(&self.doc) {
                NodeShape::Absent => Ok(None),
                NodeShape::Other => Err(Ros2wsError::InvalidManifestFile(
                    String::from_str("patch.crates-io"),
                    String::from_str("table"),
                )),
                NodeShape::Expected => Ok(toml_doc::read_patch_path(&self.doc, crates_name)),
            },
        }
    }
}

/// Whether the member list already holds `path` as a string entry.
fn contains_member(items: &Vec<Option<String>>, path: &str) -> (r: bool)
    ensures
        r == items.deep_view().contains(Some(path@)),
{
    let mut i: usize = 0;
    while i < items.len()
        invariant
            i <= items.len(),
            forall|j: int| 0 <= j < i ==> items.deep_view()[j] != Some(path@),
        decreases items.len() - i,
    {
        match &items[i] {
            Some(s) => {
                if str_eq(s.as_str(), path) {
                    assert(items.deep_view()[i as int] == Some(path@));
                    return true;
                }
            },
            None => {},
        }
        i += 1;
    }
    assert forall|j: int| 0 <= j < items.deep_view().len() implies items.deep_view()[j] != Some(
        path@,
    ) by {}
    false
}

/// Idempotence of the member mutation: adding the same path twice leaves the
/// member list exactly as adding it once does, whatever the list held before.
pub proof fn lemma_member_add_idempotent(s: Seq<Option<Seq<char>>>, p: Seq<char>)
    ensures
        member_add(member_add(s, p), p) == member_add(s, p),
{
    if !s.contains(Some(p)) {
        assert(member_add(s, p)[s.len() as int] == Some(p));
        assert(member_add(s, p).contains(Some(p)));
    }
}

/// Order preservation of the member mutation: every existing entry keeps its
/// position, and a path not yet present is appended at the end.
pub proof fn lemma_member_add_preserves_order(s: Seq<Option<Seq<char>>>, p: Seq<char>)
    ensures
        forall|i: int| 0 <= i < s.len() ==> member_add(s, p)[i] == s[i],
        s.contains(Some(p)) ==> member_add(s, p) == s,
        !s.contains(Some(p)) ==> member_add(s, p).len() == s.len() + 1 && member_add(s, p).last()
            == Some(p),
{
}

/// Upsert semantics of the patch mutation: setting the same crate name any
/// number of times leaves exactly one record for it, holding the last path
/// supplied, and never touches the records of other names.
pub proof fn lemma_patch_add_upsert(
    m: Map<Seq<char>, Seq<char>>,
    name: Seq<char>,
    path1: Seq<char>,
    path2: Seq<char>,
)
    ensures
        patch_add(patch_add(m, name, path1), name, path2) == patch_add(m, name, path2),
        patch_add(m, name, path1).dom() == m.dom().insert(name),
        patch_add(m, name, path1)[name] == path1,
        forall|other: Seq<char>|
            other != name && m.dom().contains(other) ==> patch_add(m, name, path1)[other]
                == m[other],
{
    assert(patch_add(patch_add(m, name, path1), name, path2) =~= patch_add(m, name, path2));
    assert(patch_add(m, name, path1).dom() =~= m.dom().insert(name));
}

} // verus!

