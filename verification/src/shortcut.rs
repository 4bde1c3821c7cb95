//! The data model: what the shortcut parser hands on, and the launch
//! descriptor that resolution produces.

use vstd::prelude::*;
use vstd::string::StringExecFns;
use crate::paths::{
    extension_spec, extension_of, file_name_spec, file_stem_spec, lemma_last_dot_bounds,
};

verus! {

/// How a launch descriptor's icon is supplied: either a path to an
/// icon-bearing file, or icon-file bytes extracted from an executable's
/// resources.
#[derive(Debug, Clone)]
pub enum Icon {
    Path(String),
    Image(Vec<u8>),
}

/// What the binary shortcut parser decodes from a shortcut file: an
/// optional embedded absolute target, the optional string-data blocks,
/// and the icon index from the header.  At least one of `link_target`
/// and `relative_path` must be present for resolution to succeed.
#[derive(Debug, Clone)]
pub struct ShortcutRecord {
    pub link_target: Option<String>,
    pub working_dir: Option<String>,
    pub relative_path: Option<String>,
    pub icon_location: Option<String>,
    pub command_line_arguments: Option<String>,
    pub icon_index: i32,
}

/// A fully specified launch descriptor: a display name, a resolved
/// target path, an optional icon, and the raw argument string.
#[derive(Debug, Clone)]
pub struct Shortcut {
    pub name: String,
    pub target: String,
    pub icon_path: Option<Icon>,
    pub icon_index: i32,
    pub args: String,
}

impl Shortcut {
    /// Assemble a descriptor from its resolved parts.  Missing arguments
    /// become the empty string, as the argument block is optional.
    pub fn from_parts(
        name: String,
        target: String,
        icon_path: Option<Icon>,
        icon_index: i32,
        args: Option<String>,
    ) -> (s: Shortcut)
        ensures
            s.name == name,
            s.target == target,
            s.icon_path == icon_path,
            s.icon_index == icon_index,
            s.args@ == match args {
                Some(a) => a@,
                None => Seq::<char>::empty(),
            },
    {
        let args_string = match args {
            Some(a) => a,
            None => String::new(),
        };
        Shortcut { name, target, icon_path, icon_index, args: args_string }
    }
}

/// Whether a file name marks a shortcut file: its extension must be the
/// shortcut extension.  Enumeration considers only such files.
pub fn is_shortcut_file(file_name: &str) -> (r: bool)
    ensures
        r == (extension_spec(file_name@) == Some("lnk"@)),
{
    match extension_of(file_name) {
        Some(e) => e == String::from_str("lnk"),
        None => false,
    }
}

/// Law: a file name with an extension has a non-empty stem.  A
/// descriptor's display name is the stem of its shortcut file's name, so
/// every file that enumeration accepts yields a non-empty name.
pub proof fn lemma_shortcut_name_nonempty(file_name: Seq<char>)
    requires
        extension_spec(file_name) is Some,
    ensures
        file_stem_spec(file_name).len() > 0,
{
    let name = file_name_spec(file_name);
    lemma_last_dot_bounds(name);
}

/// The descriptors that survive an enumeration pass, in order: a failed
/// file contributes nothing, and failure of one file never removes
/// another's entry.
pub open spec fn kept(items: Seq<Option<Shortcut>>) -> Seq<Shortcut>
    decreases items.len(),
{
    if items.len() == 0 {
        Seq::empty()
    } else {
        (match items[0] {
            Some(s) => seq![s],
            None => Seq::empty(),
        }) + kept(items.drop_first())
    }
}

/// Keep the descriptors of the files that produced one, in enumeration
/// order.  This is the filtering stage of an enumeration pass: each file
/// is mapped to `Some` descriptor or `None`, and the `None`s fall away.
pub fn collect_present(items: Vec<Option<Shortcut>>) -> (r: Vec<Shortcut>)
    ensures
        r@ == kept(items@),
{
    let mut items = items;
    let mut r: Vec<Shortcut> = Vec::new();
    let ghost all = items@;
    while items.len() > 0
        invariant
            kept(all) =~= r@ + kept(items@),
        decreases items.len(),
    {
        let ghost pre = items@;
        let head = items.remove(0);
        proof {
            assert(items@ =~= pre.drop_first());
        }
        match head {
            Some(s) => {
                r.push(s);
            },
            None => {},
        }
    }
    assert(kept(all) =~= r@);
    r
}

} // verus!
