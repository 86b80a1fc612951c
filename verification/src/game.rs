//! Game records built from cover lookups.
//!
//! A [`Game`] row pairs the display name and identifier the application
//! supplied with the cover asset the cache resolved for it. The helper
//! below recovers name and identifier from a game folder named
//! `Name [ID]`, the shape the application's library folder uses.

use vstd::prelude::*;

use crate::covers::CoverAsset;

verus! {

/// One game in the application's list: a display name, the game
/// identifier, and the resolved cover asset.
#[derive(Clone, Debug)]
pub struct Game {
    /// The display name.
    pub name: String,
    /// The game identifier (short code).
    pub id: String,
    /// The resolved cover asset.
    pub cover: CoverAsset,
}

impl Game {
    /// Creates a game record from its parts.
    pub fn new(name: String, id: String, cover: CoverAsset) -> (g: Game)
        ensures
            g.name@ == name@,
            g.id@ == id@,
            g.cover == cover,
    {
        Game { name, id, cover }
    }
}

/// True when byte `b` is the blank padding a folder name may carry around
/// its parts: an ASCII space or tab.
pub open spec fn is_blank(b: u8) -> bool {
    b == 32u8 || b == 9u8
}

/// True when position `i` holds the first occurrence of byte `b` in `s`.
pub open spec fn first_at(s: Seq<u8>, b: u8, i: int) -> bool {
    &&& 0 <= i < s.len()
    &&& s[i] == b
    &&& forall|j: int| 0 <= j < i ==> s[j] != b
}

/// The first position of byte `b` in `s`, when there is one.
pub fn find_byte(s: &[u8], b: u8) -> (r: Option<usize>)
    ensures
        match r {
            Some(i) => first_at(s@, b, i as int),
            None => forall|j: int| 0 <= j < s@.len() ==> s@[j] != b,
        },
{
    let mut i: usize = 0;
    while i < s.len()
        invariant
            i <= s@.len(),
            forall|j: int| 0 <= j < i ==> s@[j] != b,
        decreases s@.len() - i,
    {
        if s[i] == b {
            return Some(i);
        }
        i += 1;
    }
    None
}

/// Splits a folder name of the shape `Name [ID]` into the name, blank
/// padding stripped, and the identifier between the first opening and the
/// first closing bracket.
///
/// `None` exactly when a bracket is missing or the first closing bracket
/// stands before the first opening one: such a folder names no game.
pub fn parse_game_folder_name(s: &[u8]) -> (r: Option<(Vec<u8>, Vec<u8>)>)
    ensures
        match r {
            Some(parts) => exists|start: int, end: int|
                #![trigger first_at(s@, 91u8, start), first_at(s@, 93u8, end)]
                {
                    &&& first_at(s@, 91u8, start)
                    &&& first_at(s@, 93u8, end)
                    &&& start < end
                    &&& parts.1@ == s@.subrange(start + 1, end)
                    &&& exists|lo: int, hi: int|
                        #![trigger s@.subrange(lo, hi)]
                        {
                            &&& 0 <= lo <= hi <= start
                            &&& parts.0@ == s@.subrange(lo, hi)
                            &&& forall|j: int| 0 <= j < lo ==> is_blank(s@[j])
                            &&& forall|j: int| hi <= j < start ==> is_blank(s@[j])
                            &&& (lo < hi ==> !is_blank(s@[lo]) && !is_blank(s@[hi - 1]))
                        }
                },
            None => {
                ||| forall|j: int| 0 <= j < s@.len() ==> s@[j] != 91u8
                ||| forall|j: int| 0 <= j < s@.len() ==> s@[j] != 93u8
                ||| exists|start: int, end: int|
                    #![trigger first_at(s@, 91u8, start), first_at(s@, 93u8, end)]
                    {
                        &&& first_at(s@, 91u8, start)
                        &&& first_at(s@, 93u8, end)
                        &&& end < start
                    }
            },
        },
{
    let start = match find_byte(s, 91) {
        Some(i) => i,
        None => {
            return None;
        },
    };
    let end = match find_byte(s, 93) {
        Some(i) => i,
        None => {
            return None;
        },
    };
    if end < start {
        return None;
    }
    let id = vstd::slice::slice_to_vec(vstd::slice::slice_subrange(s, start + 1, end));
    let mut lo: usize = 0;
    while lo < start && (s[lo] == 32 || s[lo] == 9)
        invariant
            lo <= start,
            start < s@.len(),
            forall|j: int| 0 <= j < lo ==> is_blank(s@[j]),
        decreases start - lo,
    {
        lo += 1;
    }
    let mut hi: usize = start;
    while hi > lo && (s[hi - 1] == 32 || s[hi - 1] == 9)
        invariant
            lo <= hi <= start,
            start < s@.len(),
            forall|j: int| hi <= j < start ==> is_blank(s@[j]),
        decreases hi,
    {
        hi -= 1;
    }
    let name = vstd::slice::slice_to_vec(vstd::slice::slice_subrange(s, lo, hi));
    Some((name, id))
}

} // verus!
