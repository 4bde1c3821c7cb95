//! Icon resolution: an explicit non-executable icon path wins; otherwise
//! the first icon group of the target executable's resources is
//! extracted and serialized as icon-file bytes.
//!
//! The executable image is parsed by pelite, first as a 64-bit image and
//! only then as a 32-bit one: the two width variants use structurally
//! distinct header layouts, and nothing but attempting a parse tells
//! them apart.

use vstd::prelude::*;
use vstd::string::StringExecFns;
use crate::ico::{ico_count, ico_image_count, ico_well_formed, ico_well_formed_check};
use crate::paths::{extension_spec, extension_of};
use crate::resolve::opt_str_view;
use crate::shortcut::Icon;
use pelite::pe32::Pe as Pe32Ops;
use pelite::pe64::Pe as Pe64Ops;

verus! {

/// Whether an icon location names an executable rather than an
/// icon-bearing file.
pub open spec fn is_executable_path(p: Seq<char>) -> bool {
    extension_spec(p) == Some("exe"@)
}

/// What icon resolution decides before any file is touched, at the level
/// of the model.
pub ghost enum IconStep {
    File(Seq<char>),
    Extract,
}

/// The decision as a function of the record's icon location: an explicit
/// location that is not an executable is authoritative; an executable
/// location, or none at all, falls through to extraction from the
/// resolved target.
pub open spec fn icon_step(icon_location: Option<Seq<char>>) -> IconStep {
    match icon_location {
        Some(p) => if !is_executable_path(p) {
            IconStep::File(p)
        } else {
            IconStep::Extract
        },
        None => IconStep::Extract,
    }
}

/// What icon resolution hands the caller.
#[derive(Debug)]
pub enum IconDecision {
    /// Use this path as the icon source directly.
    UseFile(String),
    /// Extract the icon from the resolved target's image bytes.
    ExtractFromTarget,
}

pub open spec fn decision_view(d: IconDecision) -> IconStep {
    match d {
        IconDecision::UseFile(p) => IconStep::File(p@),
        IconDecision::ExtractFromTarget => IconStep::Extract,
    }
}

/// Decide the icon source from the record's icon location.
pub fn icon_decision(icon_location: &Option<String>) -> (d: IconDecision)
    ensures
        decision_view(d) == icon_step(opt_str_view(*icon_location)),
{
    match icon_location {
        Some(p) => {
            let exe = String::from_str("exe");
            match extension_of(p.as_str()) {
                Some(e) => {
                    if e == exe {
                        IconDecision::ExtractFromTarget
                    } else {
                        IconDecision::UseFile(p.clone())
                    }
                },
                None => IconDecision::UseFile(p.clone()),
            }
        },
        None => IconDecision::ExtractFromTarget,
    }
}

/// Law: an explicit icon location that is not an executable is used as
/// the icon source itself; extraction is never chosen for it, whatever
/// the resolved target holds.
pub proof fn lemma_icon_source_precedence(p: Seq<char>)
    requires
        !is_executable_path(p),
    ensures
        icon_step(Some(p)) == IconStep::File(p),
{
}

/// What serializing the first icon group of a 64-bit image comes to;
/// the parse is a function of the image bytes alone.
pub uninterp spec fn pe64_icon_group(image: Seq<u8>) -> Option<Seq<u8>>;

/// What serializing the first icon group of a 32-bit image comes to.
pub uninterp spec fn pe32_icon_group(image: Seq<u8>) -> Option<Seq<u8>>;

/// Relies on pelite: `pe64::PeFile::from_bytes`, `Pe::resources`,
/// `Resources::icons` and `GroupResource::write`.  The first icon group
/// in resource-directory order is reassembled as icon-file bytes,
/// starting with the six-byte directory header; any failure along the
/// way yields `None`.  The image is copied into eight-byte-aligned
/// storage first (pelite checks pointer alignment), so the outcome
/// depends on the bytes alone.  Before `write` is called, the declared
/// per-image sizes are summed with checked arithmetic: `write`
/// accumulates them in a thirty-two-bit offset counter, and a crafted
/// image could overflow it; such an image yields `None` instead.
/// Nothing more is claimed of the bytes: `write` can emit a container
/// whose directory misstates a missing payload, so the caller holds the
/// result to the container layout with the verified checker.
#[verifier::external_body]
fn extract_from_view_64(image: &Vec<u8>) -> (r: Option<Vec<u8>>)
    ensures
        match r {
            Some(v) => pe64_icon_group(image@) == Some(v@) && v@.len() >= 6,
            None => pe64_icon_group(image@) is None,
        },
{
    let mut buf = vec![0u64; image.len() / 8 + 1];
    let bytes = dataview::PodMethods::as_bytes_mut(buf.as_mut_slice());
    bytes[..image.len()].copy_from_slice(image);
    let (_, group) = pelite::pe64::PeFile::from_bytes(&bytes[..image.len()]).ok()?
        .resources().ok()?.icons().next()?.ok()?;
    let mut end: u32 = 6 + 16 * group.entries().len() as u32;
    for e in group.entries() {
        end = end.checked_add(e.bytes_in_resource())?;
    }
    let mut out = Vec::new();
    group.write(&mut out).ok()?;
    Some(out)
}

/// Relies on pelite: `pe32::PeFile::from_bytes`, `Pe::resources`,
/// `Resources::icons` and `GroupResource::write`, as the 64-bit wrapper
/// does, for the 32-bit header layout, with the same overflow guard.
#[verifier::external_body]
fn extract_from_view_32(image: &Vec<u8>) -> (r: Option<Vec<u8>>)
    ensures
        match r {
            Some(v) => pe32_icon_group(image@) == Some(v@) && v@.len() >= 6,
            None => pe32_icon_group(image@) is None,
        },
{
    let mut buf = vec![0u64; image.len() / 8 + 1];
    let bytes = dataview::PodMethods::as_bytes_mut(buf.as_mut_slice());
    bytes[..image.len()].copy_from_slice(image);
    let (_, group) = pelite::pe32::PeFile::from_bytes(&bytes[..image.len()]).ok()?
        .resources().ok()?.icons().next()?.ok()?;
    let mut end: u32 = 6 + 16 * group.entries().len() as u32;
    for e in group.entries() {
        end = end.checked_add(e.bytes_in_resource())?;
    }
    let mut out = Vec::new();
    group.write(&mut out).ok()?;
    Some(out)
}

/// A serialized group is accepted only when it is a well-formed icon
/// container holding at least one image; anything else is as good as no
/// group at all.
pub open spec fn checked_group(group: Option<Seq<u8>>) -> Option<Seq<u8>> {
    match group {
        Some(v) => if ico_well_formed(v) && ico_count(v) >= 1 {
            Some(v)
        } else {
            None
        },
        None => None,
    }
}

/// What extraction from an image of unknown width comes to: the 64-bit
/// reading wins when it yields an acceptable container; the 32-bit
/// reading is the fallback.
pub open spec fn extract_model(image: Seq<u8>) -> Option<Seq<u8>> {
    if checked_group(pe64_icon_group(image)) is Some {
        checked_group(pe64_icon_group(image))
    } else {
        checked_group(pe32_icon_group(image))
    }
}

/// Extract the first icon group of an executable image as icon-file
/// bytes, trying the 64-bit layout first and the 32-bit layout second.
/// An image with no readable icon group yields `None`, not an error.
/// Whatever it returns passed the verified container check: a
/// well-formed icon container holding at least one image, whose total
/// length is the directory overhead plus the declared per-image sizes.
pub fn extract_icon_from_exe(image: &Vec<u8>) -> (r: Option<Icon>)
    ensures
        match r {
            Some(icon) => icon matches Icon::Image(v) && extract_model(image@) == Some(v@)
                && ico_well_formed(v@) && ico_count(v@) >= 1,
            None => extract_model(image@) is None,
        },
{
    if let Some(data) = extract_from_view_64(image) {
        if ico_well_formed_check(&data) {
            if let Some(count) = ico_image_count(&data) {
                if count >= 1 {
                    return Some(Icon::Image(data));
                }
            }
        }
    }
    if let Some(data) = extract_from_view_32(image) {
        if ico_well_formed_check(&data) {
            if let Some(count) = ico_image_count(&data) {
                if count >= 1 {
                    return Some(Icon::Image(data));
                }
            }
        }
    }
    None
}

/// Law: whatever extraction yields parses as an icon container: the
/// directory reports at least one image, and the total byte length is
/// the directory overhead plus the declared per-image sizes.
pub proof fn lemma_extracted_container_well_formed(image: Seq<u8>)
    ensures
        extract_model(image) matches Some(v) ==> ico_well_formed(v) && ico_count(v) >= 1,
{
}

/// Law: the width variants are tried in a fixed order and feed one
/// result shape; extraction succeeds exactly when either width's
/// reading yields an acceptable container.
pub proof fn lemma_width_variant_fallback(image: Seq<u8>)
    ensures
        checked_group(pe64_icon_group(image)) is Some ==> extract_model(image)
            == checked_group(pe64_icon_group(image)),
        checked_group(pe64_icon_group(image)) is None ==> extract_model(image)
            == checked_group(pe32_icon_group(image)),
        (extract_model(image) is Some) == (checked_group(pe64_icon_group(image)) is Some
            || checked_group(pe32_icon_group(image)) is Some),
{
}

} // verus!
