//! Trusted view of the embedded template bundle.
//!
//! The bundle is an `include_assets::NamedArchive`: a read-only map from
//! asset name to asset bytes, decompressed once at startup by the caller.
//! Verified code sees it only through [`archive_contents`], the name given
//! to that map, and [`archive_get`], the one operation the loader needs.
use vstd::prelude::*;

use include_assets::NamedArchive;

verus! {

#[verifier::external_type_specification]
#[verifier::external_body]
pub struct ExNamedArchive(NamedArchive);

/// What the archive holds: asset contents keyed by the UTF-8 bytes of the
/// asset's name. Known only through the contracts below.
pub uninterp spec fn archive_contents(archive: &NamedArchive) -> Map<Seq<u8>, Seq<u8>>;

/// Relies on include_assets::NamedArchive::get: looks a name up in the
/// archive's name-to-content map and returns the asset's bytes, or None
/// when no asset of that name was bundled. Asset names are UTF-8, so a
/// name that is not valid UTF-8 matches nothing.
#[verifier::external_body]
pub(crate) fn archive_get<'a>(archive: &'a NamedArchive, name: &Vec<u8>) -> (r: Option<
    &'a [u8],
>)
    ensures
        match r {
            Some(content) => archive_contents(archive).contains_key(name@) && content@
                == archive_contents(archive)[name@],
            None => !archive_contents(archive).contains_key(name@),
        },
{
    match std::str::from_utf8(name.as_slice()) {
        Ok(n) => archive.get(n),
        Err(_) => None,
    }
}

} // verus!
