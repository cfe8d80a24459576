//! Selecting which standard icon catalogs to list.
//!
//! The catalogs themselves — the freedesktop icon names and their
//! descriptions — are plain data kept with the printing code outside the
//! library. The library decides which catalogs an [`IconSet`] choice selects,
//! and in what order they are listed.

use vstd::prelude::*;

verus! {

/// The user's choice of which icon catalogs to list.
#[derive(Clone, Copy, Debug, PartialEq, Eq, Structural)]
pub enum IconSet {
    All,
    Actions,
    Animations,
    Applications,
    Categories,
    Devices,
    Emblems,
    Emotes,
    International,
    MimeTypes,
    Places,
    Status,
}

/// One of the standard icon catalogs.
#[derive(Clone, Copy, Debug, PartialEq, Eq, Structural)]
pub enum IconCatalog {
    Actions,
    Animations,
    Applications,
    Categories,
    Devices,
    Emblems,
    Emotes,
    International,
    MimeTypes,
    Places,
    Status,
}

/// The catalogs a choice selects: all eleven in their fixed order, or the
/// single one named.
pub open spec fn catalogs_spec(set: IconSet) -> Seq<IconCatalog> {
    match set {
        IconSet::All => seq![
            IconCatalog::Actions,
            IconCatalog::Animations,
            IconCatalog::Applications,
            IconCatalog::Categories,
            IconCatalog::Devices,
            IconCatalog::Emblems,
            IconCatalog::Emotes,
            IconCatalog::International,
            IconCatalog::MimeTypes,
            IconCatalog::Places,
            IconCatalog::Status,
        ],
        IconSet::Actions => seq![IconCatalog::Actions],
        IconSet::Animations => seq![IconCatalog::Animations],
        IconSet::Applications => seq![IconCatalog::Applications],
        IconSet::Categories => seq![IconCatalog::Categories],
        IconSet::Devices => seq![IconCatalog::Devices],
        IconSet::Emblems => seq![IconCatalog::Emblems],
        IconSet::Emotes => seq![IconCatalog::Emotes],
        IconSet::International => seq![IconCatalog::International],
        IconSet::MimeTypes => seq![IconCatalog::MimeTypes],
        IconSet::Places => seq![IconCatalog::Places],
        IconSet::Status => seq![IconCatalog::Status],
    }
}

/// Lists the catalogs a choice selects, in listing order.
pub fn catalogs_for(set: IconSet) -> (r: Vec<IconCatalog>)
    ensures
        r@ == catalogs_spec(set),
{
    let mut r: Vec<IconCatalog> = Vec::new();
    match set {
        IconSet::All => {
            r.push(IconCatalog::Actions);
            r.push(IconCatalog::Animations);
            r.push(IconCatalog::Applications);
            r.push(IconCatalog::Categories);
            r.push(IconCatalog::Devices);
            r.push(IconCatalog::Emblems);
            r.push(IconCatalog::Emotes);
            r.push(IconCatalog::International);
            r.push(IconCatalog::MimeTypes);
            r.push(IconCatalog::Places);
            r.push(IconCatalog::Status);
        },
        IconSet::Actions => r.push(IconCatalog::Actions),
        IconSet::Animations => r.push(IconCatalog::Animations),
        IconSet::Applications => r.push(IconCatalog::Applications),
        IconSet::Categories => r.push(IconCatalog::Categories),
        IconSet::Devices => r.push(IconCatalog::Devices),
        IconSet::Emblems => r.push(IconCatalog::Emblems),
        IconSet::Emotes => r.push(IconCatalog::Emotes),
        IconSet::International => r.push(IconCatalog::International),
        IconSet::MimeTypes => r.push(IconCatalog::MimeTypes),
        IconSet::Places => r.push(IconCatalog::Places),
        IconSet::Status => r.push(IconCatalog::Status),
    }
    proof {
        assert(r@ =~= catalogs_spec(set));
    }
    r
}

} // verus!
