//! The command surface: the parsed arguments of the two subcommands and the
//! edit cycle each performs on manifest text. Reading the manifest file,
//! writing it back and holding the advisory lock are the caller's work; the
//! decision of how long a lock waiter keeps polling stands here as
//! `should_keep_waiting`.

use vstd::prelude::*;

use crate::error::Ros2wsError;
use crate::manifest::{key_upsert, manifest_of, member_add, patch_add, schema_err, Manifest};
use crate::toml_doc;
use crate::validate::{ensure_abs_path, is_abs_path};

verus! {

/// The arguments every subcommand shares.
pub struct CommonArgs {
    /// Absolute path of the workspace manifest file.
    pub manifest_path: String,
    /// Whether to hold an exclusive lock on the manifest file.
    pub with_lock: bool,
    /// How many seconds to wait for the lock; 0 means wait forever.
    pub wait_nsecs: u64,
}

/// Arguments of the subcommand that registers a workspace member.
pub struct CargoAddMember {
    /// Absolute path of the crate to register.
    pub member: String,
}

/// Arguments of the subcommand that sets a dependency path override.
pub struct CargoAddPatch {
    /// Name of the crate to override.
    pub crate_name: String,
    /// Absolute path of the crate to override with.
    pub path: String,
}

/// The chosen subcommand.
pub enum SubCommand {
    AddMember(CargoAddMember),
    AddPatch(CargoAddPatch),
}

/// A whole parsed command line.
pub struct Cargo {
    pub common_args: CommonArgs,
    pub cmd: SubCommand,
}

/// When the add-member edit cycle succeeds: the manifest path is absolute,
/// the text parses, the member path is absolute, and the sections above the
/// member list are absent or well shaped.
pub open spec fn member_cycle_admits(mp: Seq<char>, member: Seq<char>, text: Seq<char>) -> bool {
    &&& is_abs_path(mp)
    &&& toml_doc::toml_parses(text)
    &&& is_abs_path(member)
    &&& manifest_of(text).members_reachable()
}

/// The error the add-member edit cycle reports, in the order the cycle
/// checks: the manifest path, then the parse, then the mutation's own
/// validation and schema checks.
pub open spec fn member_cycle_err(
    e: Ros2wsError,
    mp: Seq<char>,
    member: Seq<char>,
    text: Seq<char>,
) -> bool {
    if !is_abs_path(mp) {
        e matches Ros2wsError::NotAbsolutePath(p) && p@ == mp
    } else if !toml_doc::toml_parses(text) {
        e is ParseFailed
    } else if !is_abs_path(member) {
        e matches Ros2wsError::NotAbsolutePath(p) && p@ == member
    } else if manifest_of(text).workspace_kind() is Other {
        schema_err(e, "workspace"@, "table"@)
    } else {
        schema_err(e, "workspace.members"@, "array"@)
    }
}

/// What a successful add-member edit cycle returns: the serialization of a
/// document holding the parsed document's sections with the member
/// registered, the patch section and everything unmodeled preserved — the
/// surrounding frame byte for byte whenever the member list already existed.
pub open spec fn member_cycle_output(t: Seq<char>, member: Seq<char>, text: Seq<char>) -> bool {
    exists|m: Manifest|
        {
            &&& t == #[trigger] m.text()
            &&& m.workspace_kind() is Expected
            &&& m.members_kind() is Expected
            &&& m.members_view() == member_add(manifest_of(text).members_view(), member)
            &&& m.patch_kind() == manifest_of(text).patch_kind()
            &&& m.crates_io_kind() == manifest_of(text).crates_io_kind()
            &&& m.patch_entries() == manifest_of(text).patch_entries()
            &&& m.patch_key_seq() == manifest_of(text).patch_key_seq()
            &&& m.rest() == manifest_of(text).rest()
            &&& (manifest_of(text).workspace_kind() is Expected && manifest_of(
                text,
            ).members_kind() is Expected ==> m.frame() == manifest_of(text).frame())
        }
}

/// When the add-patch edit cycle succeeds.
pub open spec fn patch_cycle_admits(
    mp: Seq<char>,
    name: Seq<char>,
    path: Seq<char>,
    text: Seq<char>,
) -> bool {
    &&& is_abs_path(mp)
    &&& toml_doc::toml_parses(text)
    &&& name.len() > 0
    &&& is_abs_path(path)
    &&& manifest_of(text).patches_reachable()
}

/// The error the add-patch edit cycle reports, in the order the cycle checks.
pub open spec fn patch_cycle_err(
    e: Ros2wsError,
    mp: Seq<char>,
    name: Seq<char>,
    path: Seq<char>,
    text: Seq<char>,
) -> bool {
    if !is_abs_path(mp) {
        e matches Ros2wsError::NotAbsolutePath(p) && p@ == mp
    } else if !toml_doc::toml_parses(text) {
        e is ParseFailed
    } else if name.len() == 0 {
        e == Ros2wsError::EmptyCrateName
    } else if !is_abs_path(path) {
        e matches Ros2wsError::NotAbsolutePath(p) && p@ == path
    } else if manifest_of(text).patch_kind() is Other {
        schema_err(e, "patch"@, "table"@)
    } else {
        schema_err(e, "patch.crates-io"@, "table"@)
    }
}

/// What a successful add-patch edit cycle returns: the serialization of a
/// document holding the parsed document's sections with the override record
/// set, the workspace section and everything unmodeled preserved — the
/// surrounding frame byte for byte whenever the patch table was absent or
/// implicit (as a table parsed from a `[patch.crates-io]` header is).
pub open spec fn patch_cycle_output(
    t: Seq<char>,
    name: Seq<char>,
    path: Seq<char>,
    text: Seq<char>,
) -> bool {
    exists|m: Manifest|
        {
            &&& t == #[trigger] m.text()
            &&& m.patch_kind() is Expected
            &&& m.crates_io_kind() is Expected
            &&& m.patches_view() == patch_add(manifest_of(text).patches_view(), name, path)
            &&& m.patch_keys_view() == key_upsert(manifest_of(text).patch_keys_view(), name)
            &&& m.workspace_kind() == manifest_of(text).workspace_kind()
            &&& m.members_kind() == manifest_of(text).members_kind()
            &&& m.member_entries() == manifest_of(text).member_entries()
            &&& m.rest() == manifest_of(text).rest()
            &&& (manifest_of(text).patch_kind() is Absent || manifest_of(
                text,
            ).patch_implicit() ==> m.frame() == manifest_of(text).frame())
        }
}

impl CargoAddMember {
    /// The edit cycle of the add-member subcommand on the manifest text the
    /// caller read: validate the manifest path, parse, register the member,
    /// serialize.
    pub fn execute(self, args: &CommonArgs, manifest_text: &str) -> (r: Result<
        String,
        Ros2wsError,
    >)
        ensures
            r is Ok <==> member_cycle_admits(args.manifest_path@, self.member@, manifest_text@),
            r matches Err(e) ==> member_cycle_err(
                e,
                args.manifest_path@,
                self.member@,
                manifest_text@,
            ),
            r matches Ok(t) ==> member_cycle_output(t@, self.member@, manifest_text@),
    {
        if let Err(e) = ensure_abs_path(args.manifest_path.as_str()) {
            return Err(e);
        }
        let mut manifest = match Manifest::from_toml_str(manifest_text) {
            Ok(m) => m,
            Err(e) => { return Err(e) },
        };
        if let Err(e) = manifest.add_member(self.member.as_str()) {
            return Err(e);
        }
        let out = manifest.to_toml_string();
        proof {
            assert(out@ == manifest.text() && manifest.workspace_kind() is Expected
                && manifest.members_kind() is Expected && manifest.members_view() == member_add(
                manifest_of(manifest_text@).members_view(),
                self.member@,
            ));
        }
        Ok(out)
    }
}

impl CargoAddPatch {
    /// The edit cycle of the add-patch subcommand on the manifest text the
    /// caller read: validate the manifest path, parse, set the override
    /// record, serialize.
    pub fn execute(self, args: &CommonArgs, manifest_text: &str) -> (r: Result<
        String,
        Ros2wsError,
    >)
        ensures
            r is Ok <==> patch_cycle_admits(
                args.manifest_path@,
                self.crate_name@,
                self.path@,
                manifest_text@,
            ),
            r matches Err(e) ==> patch_cycle_err(
                e,
                args.manifest_path@,
                self.crate_name@,
                self.path@,
                manifest_text@,
            ),
            r matches Ok(t) ==> patch_cycle_output(
                t@,
                self.crate_name@,
                self.path@,
                manifest_text@,
            ),
    {
        if let Err(e) = ensure_abs_path(args.manifest_path.as_str()) {
            return Err(e);
        }
        let mut manifest = match Manifest::from_toml_str(manifest_text) {
            Ok(m) => m,
            Err(e) => { return Err(e) },
        };
        if let Err(e) = manifest.add_patch(self.crate_name.as_str(), self.path.as_str()) {
            return Err(e);
        }
        let out = manifest.to_toml_string();
        proof {
            assert(out@ == manifest.text() && manifest.patch_kind() is Expected
                && manifest.crates_io_kind() is Expected && manifest.patches_view() == patch_add(
                manifest_of(manifest_text@).patches_view(),
                self.crate_name@,
                self.path@,
            ));
        }
        Ok(out)
    }
}

impl Cargo {
    /// Dispatches to the chosen subcommand's edit cycle and hands its result
    /// through unchanged. On success the returned text is what the caller
    /// writes back to the manifest file.
    pub fn execute(self, manifest_text: &str) -> (r: Result<String, Ros2wsError>)
        ensures
            self.cmd matches SubCommand::AddMember(c) ==> {
                &&& (r is Ok <==> member_cycle_admits(
                    self.common_args.manifest_path@,
                    c.member@,
                    manifest_text@,
                ))
                &&& (r matches Err(e) ==> member_cycle_err(
                    e,
                    self.common_args.manifest_path@,
                    c.member@,
                    manifest_text@,
                ))
                &&& (r matches Ok(t) ==> member_cycle_output(t@, c.member@, manifest_text@))
            },
            self.cmd matches SubCommand::AddPatch(c) ==> {
                &&& (r is Ok <==> patch_cycle_admits(
                    self.common_args.manifest_path@,
                    c.crate_name@,
                    c.path@,
                    manifest_text@,
                ))
                &&& (r matches Err(e) ==> patch_cycle_err(
                    e,
                    self.common_args.manifest_path@,
                    c.crate_name@,
                    c.path@,
                    manifest_text@,
                ))
                &&& (r matches Ok(t) ==> patch_cycle_output(
                    t@,
                    c.crate_name@,
                    c.path@,
                    manifest_text@,
                ))
            },
    {
        let Cargo { common_args, cmd } = self;
        match cmd {
            SubCommand::AddMember(c) => c.execute(&common_args, manifest_text),
            SubCommand::AddPatch(c) => c.execute(&common_args, manifest_text),
        }
    }
}

/// One round of the lock-acquisition poll: whether a waiter should go on
/// trying after `elapsed_secs` seconds and `elapsed_subsec_nanos` nanoseconds,
/// given the caller's `wait_nsecs` deadline in seconds, where a deadline of 0
/// means wait forever. Polling goes on while the elapsed time has not passed
/// the deadline.
pub fn should_keep_waiting(wait_nsecs: u64, elapsed_secs: u64, elapsed_subsec_nanos: u32) -> (r:
    bool)
    ensures
        r == (wait_nsecs == 0 || elapsed_secs < wait_nsecs || (elapsed_secs == wait_nsecs
            && elapsed_subsec_nanos == 0)),
{
    wait_nsecs == 0 || elapsed_secs < wait_nsecs || (elapsed_secs == wait_nsecs
        && elapsed_subsec_nanos == 0)
}

} // verus!
