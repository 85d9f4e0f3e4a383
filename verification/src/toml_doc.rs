//! The trusted boundary around `toml_edit`: the document type, spec names for
//! the two sections this library edits, and one small wrapper per document
//! operation the verified code performs.
//!
//! The names below speak of the two sections a workspace manifest holds:
//! `workspace.members`, an array of path strings, and `patch.crates-io`, a
//! table of `name = { path = "..." }` records. Everything else in a document
//! is carried through untouched and unmodelled.
//!
//! The probe wrappers read through `Table::get`, which filters out the
//! placeholder items `toml_edit`'s `Index` operators can leave behind, while
//! the open wrappers go through `Table::entry`, which sees a placeholder as
//! occupied. No code of this crate or its callers uses those operators and
//! parsing never produces a placeholder, so the two views agree on every
//! document that can reach these wrappers.

use vstd::prelude::*;

verus! {

#[verifier::external_type_specification]
#[verifier::external_body]
pub struct ExDocumentMut(toml_edit::DocumentMut);

/// The shape of one optional node of the document, judged against the kind
/// its section expects (a table for `workspace`, `patch` and `crates-io`, an
/// array for `members`).
#[derive(Debug, Clone, Copy, PartialEq, Eq, Structural)]
pub enum NodeShape {
    /// The key is absent.
    Absent,
    /// The key holds a node of the expected kind.
    Expected,
    /// The key holds a node of another kind.
    Other,
}

/// The text the document serializes to. `toml_edit` preserves the formatting
/// of every region an edit did not touch, so this is a function of the
/// document value alone.
pub uninterp spec fn doc_str(d: toml_edit::DocumentMut) -> Seq<char>;

/// The shape of the root `workspace` entry, whose expected kind is a table.
pub uninterp spec fn workspace_kind(d: toml_edit::DocumentMut) -> NodeShape;

/// The shape of the `members` entry of the `workspace` table, whose
/// expected kind is an array; meaningful only while
/// `workspace_kind(d) is Expected`.
pub uninterp spec fn members_kind(d: toml_edit::DocumentMut) -> NodeShape;

/// The entries of the `workspace.members` array, in order: `Some(s)` for an
/// entry holding the string `s`, `None` for an entry of any other type.
/// Meaningful only while `workspace_kind(d) is Expected` and
/// `members_kind(d) is Expected`.
pub uninterp spec fn member_entries(d: toml_edit::DocumentMut) -> Seq<Option<Seq<char>>>;

/// The shape of the root `patch` entry, whose expected kind is a table.
pub uninterp spec fn patch_kind(d: toml_edit::DocumentMut) -> NodeShape;

/// The shape of the `crates-io` entry of the `patch` table, whose expected
/// kind is a table; meaningful only while `patch_kind(d) is Expected`.
pub uninterp spec fn crates_io_kind(d: toml_edit::DocumentMut) -> NodeShape;

/// The override records of the `patch.crates-io` table: every key whose value
/// is an inline table holding a string under `path`, mapped to that string.
/// Keys with a value of any other shape are not in the map's domain.
/// Meaningful only while `patch_kind(d) is Expected` and
/// `crates_io_kind(d) is Expected`.
pub uninterp spec fn patch_entries(d: toml_edit::DocumentMut) -> Map<Seq<char>, Seq<char>>;

/// The keys of the `patch.crates-io` table in their stored order — every key,
/// whatever the shape of its value — and the empty sequence while
/// `patch.crates-io` is missing or not a table. The table keeps a replaced
/// key in its place and appends a new one at the end.
pub uninterp spec fn crates_io_keys(d: toml_edit::DocumentMut) -> Seq<Seq<char>>;

/// The text the document prints once its `workspace` and `patch` root
/// entries are removed: a name for everything outside the two modeled
/// sections — unrecognized sections, comments, formatting — which every
/// mutation must leave alone, whether or not it creates the sections.
pub uninterp spec fn rest_text(d: toml_edit::DocumentMut) -> Seq<char>;

/// The text the document prints once only the `workspace.members` entry and
/// the `patch.crates-io` entry are removed: beside what `rest_text` covers,
/// this keeps the sibling keys inside `[workspace]` and `[patch]` and those
/// tables' own headers. A mutation preserves it only under the conditions its
/// contract states: creating a missing section adds header text, and
/// inserting the members entry into an implicit workspace table makes that
/// table's hidden header appear.
pub uninterp spec fn frame_text(d: toml_edit::DocumentMut) -> Seq<char>;

/// Whether the `patch` table is marked implicit — printing no header of its
/// own while it holds no direct key-values; meaningful only while
/// `patch_kind(d) is Expected`. The parser marks a parent table created by a
/// dotted header (`[patch.crates-io]`) implicit, and one with its own
/// `[patch]` header explicit.
pub uninterp spec fn patch_implicit(d: toml_edit::DocumentMut) -> bool;

/// Whether `toml_edit`'s parser accepts `text`. Parsing is a function of the
/// text alone.
pub uninterp spec fn toml_parses(text: Seq<char>) -> bool;

/// The document `toml_edit`'s parser yields for `text`; meaningful only
/// while `toml_parses(text)`. Parsing is deterministic, so this is a
/// function of the text alone.
pub uninterp spec fn toml_doc_of(text: Seq<char>) -> toml_edit::DocumentMut;

/// The text the parser records: it skips a leading byte-order mark, which
/// lands in no span, so the mark is absent from the reprinted document.
pub open spec fn bom_stripped(text: Seq<char>) -> Seq<char> {
    if text.len() > 0 && text[0] == '\u{FEFF}' {
        text.skip(1)
    } else {
        text
    }
}

/// Text whose line endings the printer reproduces: it holds no carriage
/// return and, unless empty, ends with a line feed. The parser drops the
/// newline that ends each key-value or table-header line and the printer
/// regenerates exactly one line feed there, so a CRLF ending comes back as
/// a bare line feed and a missing final newline is added.
pub open spec fn lf_normalized(text: Seq<char>) -> bool {
    &&& !text.contains('\r')
    &&& (text.len() == 0 || text.last() == '\n')
}

/// Relies on `toml_edit::DocumentMut::new`: an empty document, with no keys,
/// that serializes to the empty string.
#[verifier::external_body]
pub(crate) fn new_doc() -> (d: toml_edit::DocumentMut)
    ensures
        doc_str(d) == Seq::<char>::empty(),
        workspace_kind(d) is Absent,
        patch_kind(d) is Absent,
{
    toml_edit::DocumentMut::new()
}

/// Relies on `toml_edit`'s parser (`str::parse::<DocumentMut>`): it accepts
/// or rejects on the text alone, deterministically. On success the document
/// preserves the source text region for region, with two normalizations on
/// reprinting: a leading byte-order mark is skipped by the lexer, and the
/// newline ending each key-value or table-header line is regenerated as one
/// line feed — added where the text ended without one, and replacing a CRLF.
/// Byte equality is therefore claimed only for line-feed-normalized,
/// newline-terminated input; on failure the error's message is returned.
#[verifier::external_body]
pub(crate) fn parse_doc(text: &str) -> (r: Result<toml_edit::DocumentMut, String>)
    ensures
        r is Ok <==> toml_parses(text@),
        r matches Ok(d) ==> d == toml_doc_of(text@),
        lf_normalized(text@) ==> (r matches Ok(d) ==> doc_str(d) == bom_stripped(text@)),
{
    match text.parse::<toml_edit::DocumentMut>() {
        Ok(d) => Ok(d),
        Err(e) => Err(e.to_string()),
    }
}

/// Relies on `toml_edit`'s `Display` for `DocumentMut`: serialization keeps
/// the formatting of every untouched region.
#[verifier::external_body]
pub(crate) fn doc_to_string(d: &toml_edit::DocumentMut) -> (r: String)
    ensures
        r@ == doc_str(*d),
{
    d.to_string()
}

/// Relies on `toml_edit`'s `Table::get` and `Item::is_table`.
#[verifier::external_body]
pub(crate) fn probe_workspace(d: &toml_edit::DocumentMut) -> (r: NodeShape)
    ensures
        r == workspace_kind(*d),
{
    match d.as_table().get("workspace") {
        None => NodeShape::Absent,
        Some(item) => if item.is_table() {
            NodeShape::Expected
        } else {
            NodeShape::Other
        },
    }
}

/// Relies on `toml_edit`'s `Table::get` and `Item::is_table`.
#[verifier::external_body]
pub(crate) fn probe_patch(d: &toml_edit::DocumentMut) -> (r: NodeShape)
    ensures
        r == patch_kind(*d),
{
    match d.as_table().get("patch") {
        None => NodeShape::Absent,
        Some(item) => if item.is_table() {
            NodeShape::Expected
        } else {
            NodeShape::Other
        },
    }
}

/// Relies on `toml_edit`'s `Table::get` on the workspace table and
/// `Item::is_array`.
#[verifier::external_body]
pub(crate) fn probe_members(d: &toml_edit::DocumentMut) -> (r: NodeShape)
    requires
        workspace_kind(*d) is Expected,
    ensures
        r == members_kind(*d),
{
    match d.as_table().get("workspace").unwrap().get("members") {
        None => NodeShape::Absent,
        Some(item) => if item.is_array() {
            NodeShape::Expected
        } else {
            NodeShape::Other
        },
    }
}

/// Relies on `toml_edit`'s `Table::get` on the patch table and
/// `Item::is_table`.
#[verifier::external_body]
pub(crate) fn probe_crates_io(d: &toml_edit::DocumentMut) -> (r: NodeShape)
    requires
        patch_kind(*d) is Expected,
    ensures
        r == crates_io_kind(*d),
{
    match d.as_table().get("patch").unwrap().get("crates-io") {
        None => NodeShape::Absent,
        Some(item) => if item.is_table() {
            NodeShape::Expected
        } else {
            NodeShape::Other
        },
    }
}

/// Relies on `toml_edit`'s `Table::entry`/`Entry::or_insert` — inserting an
/// empty table when the key is absent, touching nothing when it is present —
/// and `Item::is_table`.
#[verifier::external_body]
pub(crate) fn open_workspace(d: &mut toml_edit::DocumentMut) -> (ok: bool)
    ensures
        ok == !(workspace_kind(*old(d)) is Other),
        !ok ==> *final(d) == *old(d),
        workspace_kind(*old(d)) is Expected ==> *final(d) == *old(d),
        ok ==> workspace_kind(*final(d)) is Expected,
        crates_io_keys(*final(d)) == crates_io_keys(*old(d)),
        rest_text(*final(d)) == rest_text(*old(d)),
        workspace_kind(*old(d)) is Absent ==> {
            &&& members_kind(*final(d)) is Absent
            &&& patch_kind(*final(d)) == patch_kind(*old(d))
            &&& crates_io_kind(*final(d)) == crates_io_kind(*old(d))
            &&& patch_entries(*final(d)) == patch_entries(*old(d))
        },
{
    let item = d.as_table_mut().entry("workspace").or_insert(toml_edit::table());
    item.is_table()
}

/// Relies on `toml_edit`'s `Table::entry`/`Entry::or_insert` — inserting an
/// empty array value when the key is absent — and `Item::is_array`.
#[verifier::external_body]
pub(crate) fn open_members(d: &mut toml_edit::DocumentMut) -> (ok: bool)
    requires
        workspace_kind(*old(d)) is Expected,
    ensures
        ok == !(members_kind(*old(d)) is Other),
        !ok ==> *final(d) == *old(d),
        members_kind(*old(d)) is Expected ==> *final(d) == *old(d),
        ok ==> workspace_kind(*final(d)) is Expected && members_kind(*final(d)) is Expected,
        crates_io_keys(*final(d)) == crates_io_keys(*old(d)),
        rest_text(*final(d)) == rest_text(*old(d)),
        members_kind(*old(d)) is Absent ==> {
            &&& member_entries(*final(d)) == Seq::<Option<Seq<char>>>::empty()
            &&& patch_kind(*final(d)) == patch_kind(*old(d))
            &&& crates_io_kind(*final(d)) == crates_io_kind(*old(d))
            &&& patch_entries(*final(d)) == patch_entries(*old(d))
        },
{
    let ws = d.as_table_mut().get_mut("workspace").unwrap().as_table_mut().unwrap();
    let item = ws.entry("members").or_insert(toml_edit::value(toml_edit::Array::new()));
    item.is_array()
}

/// Relies on `toml_edit`'s `Array::iter` and `Value::as_str`: hands each
/// entry of the members array out as its string content, or `None` for an
/// entry of any other type.
#[verifier::external_body]
pub(crate) fn read_members(d: &toml_edit::DocumentMut) -> (v: Vec<Option<String>>)
    requires
        workspace_kind(*d) is Expected,
        members_kind(*d) is Expected,
    ensures
        v.deep_view() == member_entries(*d),
{
    let arr = d.as_table().get("workspace").unwrap().get("members").unwrap().as_array().unwrap();
    arr.iter().map(|value| value.as_str().map(str::to_string)).collect()
}

/// Relies on `toml_edit`'s `Array::push`: appends the string at the end of
/// the members array and leaves every other part of the document alone.
#[verifier::external_body]
pub(crate) fn push_member(d: &mut toml_edit::DocumentMut, path: &str)
    requires
        workspace_kind(*old(d)) is Expected,
        members_kind(*old(d)) is Expected,
    ensures
        workspace_kind(*final(d)) is Expected,
        members_kind(*final(d)) is Expected,
        member_entries(*final(d)) == member_entries(*old(d)).push(Some(path@)),
        patch_kind(*final(d)) == patch_kind(*old(d)),
        crates_io_kind(*final(d)) == crates_io_kind(*old(d)),
        patch_entries(*final(d)) == patch_entries(*old(d)),
        crates_io_keys(*final(d)) == crates_io_keys(*old(d)),
        rest_text(*final(d)) == rest_text(*old(d)),
        frame_text(*final(d)) == frame_text(*old(d)),
{
    let arr = d.as_table_mut().get_mut("workspace").unwrap().get_mut(
        "members",
    ).unwrap().as_array_mut().unwrap();
    arr.push(path);
}

/// Relies on `toml_edit`'s `Table::entry`/`Entry::or_insert`,
/// `Item::as_table_mut` and `Table::set_implicit`: the patch table, created
/// empty on demand, is marked implicit so no bare `[patch]` header is
/// printed; marking it implicit changes at most how the document prints,
/// never what the sections hold.
#[verifier::external_body]
pub(crate) fn open_patch(d: &mut toml_edit::DocumentMut) -> (ok: bool)
    ensures
        ok == !(patch_kind(*old(d)) is Other),
        !ok ==> *final(d) == *old(d),
        crates_io_keys(*final(d)) == crates_io_keys(*old(d)),
        rest_text(*final(d)) == rest_text(*old(d)),
        ok ==> patch_implicit(*final(d)),
        ok && (patch_kind(*old(d)) is Absent || patch_implicit(*old(d))) ==> frame_text(
            *final(d),
        ) == frame_text(*old(d)),
        ok ==> {
            &&& patch_kind(*final(d)) is Expected
            &&& workspace_kind(*final(d)) == workspace_kind(*old(d))
            &&& members_kind(*final(d)) == members_kind(*old(d))
            &&& member_entries(*final(d)) == member_entries(*old(d))
            &&& (patch_kind(*old(d)) is Expected ==> crates_io_kind(*final(d))
                == crates_io_kind(*old(d)) && patch_entries(*final(d)) == patch_entries(
                *old(d),
            ))
            &&& (patch_kind(*old(d)) is Absent ==> crates_io_kind(*final(d)) is Absent)
        },
{
    let item = d.as_table_mut().entry("patch").or_insert(toml_edit::table());
    match item.as_table_mut() {
        Some(t) => {
            t.set_implicit(true);
            true
        },
        None => false,
    }
}

/// Relies on `toml_edit`'s `Table::entry`/`Entry::or_insert` on the patch
/// table — inserting an empty table when the key is absent — and
/// `Item::is_table`.
#[verifier::external_body]
pub(crate) fn open_crates_io(d: &mut toml_edit::DocumentMut) -> (ok: bool)
    requires
        patch_kind(*old(d)) is Expected,
    ensures
        ok == !(crates_io_kind(*old(d)) is Other),
        !ok ==> *final(d) == *old(d),
        crates_io_kind(*old(d)) is Expected ==> *final(d) == *old(d),
        ok ==> patch_kind(*final(d)) is Expected && crates_io_kind(*final(d)) is Expected,
        rest_text(*final(d)) == rest_text(*old(d)),
        frame_text(*final(d)) == frame_text(*old(d)),
        patch_implicit(*final(d)) == patch_implicit(*old(d)),
        crates_io_kind(*old(d)) is Absent ==> {
            &&& patch_entries(*final(d)) == Map::<Seq<char>, Seq<char>>::empty()
            &&& crates_io_keys(*final(d)) == Seq::<Seq<char>>::empty()
            &&& workspace_kind(*final(d)) == workspace_kind(*old(d))
            &&& members_kind(*final(d)) == members_kind(*old(d))
            &&& member_entries(*final(d)) == member_entries(*old(d))
        },
{
    let pt = d.as_table_mut().get_mut("patch").unwrap().as_table_mut().unwrap();
    let item = pt.entry("crates-io").or_insert(toml_edit::table());
    item.is_table()
}

/// Relies on `toml_edit`'s `Table::insert` on the crates-io table: stores
/// `name = { path = "<path>" }` as a single inline record, replacing any
/// previous value of that key wholesale and keeping every other key where it
/// stands.
#[verifier::external_body]
pub(crate) fn set_patch(d: &mut toml_edit::DocumentMut, name: &str, path: &str)
    requires
        patch_kind(*old(d)) is Expected,
        crates_io_kind(*old(d)) is Expected,
    ensures
        patch_kind(*final(d)) is Expected,
        crates_io_kind(*final(d)) is Expected,
        patch_entries(*final(d)) == patch_entries(*old(d)).insert(name@, path@),
        crates_io_keys(*old(d)).contains(name@) ==> crates_io_keys(*final(d)) == crates_io_keys(
            *old(d),
        ),
        !crates_io_keys(*old(d)).contains(name@) ==> crates_io_keys(*final(d)) == crates_io_keys(
            *old(d),
        ).push(name@),
        workspace_kind(*final(d)) == workspace_kind(*old(d)),
        members_kind(*final(d)) == members_kind(*old(d)),
        member_entries(*final(d)) == member_entries(*old(d)),
        rest_text(*final(d)) == rest_text(*old(d)),
        frame_text(*final(d)) == frame_text(*old(d)),
        patch_implicit(*final(d)) == patch_implicit(*old(d)),
{
    let mut record = toml_edit::InlineTable::new();
    record.insert("path", toml_edit::Value::from(path));
    let ct = d.as_table_mut().get_mut("patch").unwrap().get_mut(
        "crates-io",
    ).unwrap().as_table_mut().unwrap();
    ct.insert(name, toml_edit::Item::Value(toml_edit::Value::InlineTable(record)));
}

/// Relies on `toml_edit`'s `Table::get`, `Item::as_inline_table`,
/// `InlineTable::get` and `Value::as_str`: hands out the `path` string of the
/// named override record, or `None` when the key is absent or its value is
/// not such a record.
#[verifier::external_body]
pub(crate) fn read_patch_path(d: &toml_edit::DocumentMut, name: &str) -> (r: Option<String>)
    requires
        patch_kind(*d) is Expected,
        crates_io_kind(*d) is Expected,
    ensures
        r is Some <==> patch_entries(*d).dom().contains(name@),
        r matches Some(p) ==> p@ == patch_entries(*d)[name@],
{
    let ct = d.as_table().get("patch").unwrap().get("crates-io").unwrap().as_table().unwrap();
    match ct.get(name) {
        Some(item) => match item.as_inline_table() {
            Some(record) => match record.get("path") {
                Some(value) => value.as_str().map(str::to_string),
                None => None,
            },
            None => None,
        },
        None => None,
    }
}

} // verus!
