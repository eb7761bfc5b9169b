use vstd::prelude::*;

use crate::paths::{
    extension, extension_of, join, joined, no_separator, strip_prefix, stripped, with_extension,
    with_extension_of,
};

verus! {

/// The extension that an encrypted asset carries, mapped to the extension of
/// the file it was made from.
pub open spec fn mapped_extension(e: Seq<char>) -> Option<Seq<char>> {
    if e == "rpgmvo"@ {
        Some("ogg"@)
    } else if e == "rpgmvm"@ {
        Some("m4a"@)
    } else if e == "rpgmvp"@ {
        Some("png"@)
    } else if e == "ogg_"@ {
        Some("ogg"@)
    } else if e == "m4a_"@ {
        Some("m4a"@)
    } else if e == "png_"@ {
        Some("png"@)
    } else {
        None
    }
}

/// Whether two strings hold the same characters.
fn same_text(a: &str, b: &str) -> (r: bool)
    ensures
        r == (a@ == b@),
{
    a.to_owned() == b.to_owned()
}

/// Looks an extension up in the table of encrypted extensions; the match
/// is exact and case-sensitive.
pub fn lookup_extension(ext: &str) -> (r: Option<&'static str>)
    ensures
        match r {
            Some(t) => mapped_extension(ext@) == Some(t@) && no_separator(t@),
            None => mapped_extension(ext@) is None,
        },
{
    proof {
        reveal_strlit("ogg");
        reveal_strlit("m4a");
        reveal_strlit("png");
    }
    if same_text(ext, "rpgmvo") {
        Some("ogg")
    } else if same_text(ext, "rpgmvm") {
        Some("m4a")
    } else if same_text(ext, "rpgmvp") {
        Some("png")
    } else if same_text(ext, "ogg_") {
        Some("ogg")
    } else if same_text(ext, "m4a_") {
        Some("m4a")
    } else if same_text(ext, "png_") {
        Some("png")
    } else {
        None
    }
}

/// What is done with one file.
#[derive(Debug, Clone, Copy, PartialEq, Eq, Structural)]
pub enum Action {
    /// The file is an encrypted asset: decrypt it into the destination.
    Decrypt,
    /// The file is copied to the destination as it is.
    Copy,
    /// The file is left alone.
    Skip,
}

/// The work planned for one regular file.
#[derive(Debug, Clone, PartialEq, Eq)]
pub struct Plan {
    pub source: String,
    pub dest: String,
    pub action: Action,
}

/// The mapped extension of the path `p`, if it has one the table knows.
pub open spec fn asset_extension(p: Seq<char>) -> Option<Seq<char>> {
    match extension_of(p) {
        Some(e) => mapped_extension(e),
        None => None,
    }
}

/// Where and how `Plan::new` plans a file at `source`, if it does not skip it.
pub open spec fn in_place_target(source: Seq<char>) -> Option<(Seq<char>, Action)> {
    match asset_extension(source) {
        Some(t) => Some((with_extension_of(source, t), Action::Decrypt)),
        None => None,
    }
}

/// Where and how `plan` places a file at `source` under `dest_root`.
pub open spec fn mirrored_target(game_dir: Seq<char>, dest_root: Seq<char>, source: Seq<char>) -> Option<
    (Seq<char>, Action),
> {
    match stripped(source, game_dir) {
        None => None,
        Some(rel) => {
            let base = joined(dest_root, rel);
            match asset_extension(source) {
                Some(t) => Some((with_extension_of(base, t), Action::Decrypt)),
                None => Some((base, Action::Copy)),
            }
        },
    }
}

impl Plan {
    /// Plans a regular file for decryption in place: an asset is decrypted
    /// into the same path with its extension restored; any other file is
    /// skipped.
    pub fn new(source: &str) -> (r: Plan)
        ensures
            r.source@ == source@,
            match in_place_target(source@) {
                Some((d, a)) => r.dest@ == d && r.action == a,
                None => r.action == Action::Skip && r.dest@ == source@,
            },
    {
        let mapped = match extension(source) {
            Some(ext) => lookup_extension(ext.as_str()),
            None => None,
        };
        match mapped {
            Some(t) => Plan {
                source: source.to_owned(),
                dest: with_extension(source, t),
                action: Action::Decrypt,
            },
            None => Plan { source: source.to_owned(), dest: source.to_owned(), action: Action::Skip },
        }
    }
}

/// Plans a regular file of the game for a decrypted copy of the whole tree:
/// the file keeps its path relative to the game's root under `dest_root`; an
/// asset is decrypted with its extension restored, any other file is copied
/// under its relative path as it is. `None` where `source` lies outside
/// `game_dir`.
pub fn plan(game_dir: &str, dest_root: &str, source: &str) -> (r: Option<Plan>)
    ensures
        match mirrored_target(game_dir@, dest_root@, source@) {
            None => r is None,
            Some((d, a)) => r matches Some(p) && p.source@ == source@ && p.dest@ == d && p.action
                == a,
        },
{
    let rel = match strip_prefix(source, game_dir) {
        Some(rel) => rel,
        None => return None,
    };
    let base = join(dest_root, rel.as_str());
    let mapped = match extension(source) {
        Some(ext) => lookup_extension(ext.as_str()),
        None => None,
    };
    let (dest, action) = match mapped {
        Some(t) => (with_extension(base.as_str(), t), Action::Decrypt),
        None => (base, Action::Copy),
    };
    Some(Plan { source: source.to_owned(), dest, action })
}


/// Planning depends on the extension alone: a file whose extension the table
/// knows is decrypted under the mapped extension; any other file is skipped
/// in place, or copied under its own relative path into a mirrored tree.
pub proof fn lemma_plan_by_extension(
    game_dir: Seq<char>,
    dest_root: Seq<char>,
    source: Seq<char>,
    rel: Seq<char>,
)
    requires
        stripped(source, game_dir) == Some(rel),
    ensures
        match extension_of(source) {
            Some(e) => match mapped_extension(e) {
                Some(t) => {
                    &&& in_place_target(source) == Some(
                        (with_extension_of(source, t), Action::Decrypt),
                    )
                    &&& mirrored_target(game_dir, dest_root, source) == Some(
                        (with_extension_of(joined(dest_root, rel), t), Action::Decrypt),
                    )
                },
                None => {
                    &&& in_place_target(source) is None
                    &&& mirrored_target(game_dir, dest_root, source) == Some(
                        (joined(dest_root, rel), Action::Copy),
                    )
                },
            },
            None => {
                &&& in_place_target(source) is None
                &&& mirrored_target(game_dir, dest_root, source) == Some(
                    (joined(dest_root, rel), Action::Copy),
                )
            },
        },
{
}

} // verus!
