use vstd::prelude::*;

verus! {

/// The key under which the dark-mode preference is stored.
pub const DARK_MODE_KEY: &'static str = "dark_mode";

/// The text stored for a dark-mode flag.
pub open spec fn stored_text(dark: bool) -> Seq<char> {
    if dark {
        "true"@
    } else {
        "false"@
    }
}

/// The flag read back from what the store holds: on only for the exact text
/// `"true"`; off when nothing is stored or the store could not be read.
pub open spec fn dark_mode_of_stored(v: Option<Seq<char>>) -> bool {
    v == Some("true"@)
}

/// The text to store for `dark`.
pub fn dark_mode_to_stored(dark: bool) -> (r: String)
    ensures
        r@ == stored_text(dark),
{
    if dark {
        String::from_str("true")
    } else {
        String::from_str("false")
    }
}

/// The text of a value read from the store, if one was read.
pub open spec fn stored_view(v: Option<&str>) -> Option<Seq<char>> {
    match v {
        Some(s) => Some(s@),
        None => None,
    }
}

/// The flag for a stored value, `false` where none was read.
pub fn dark_mode_from_stored(v: Option<&str>) -> (r: bool)
    ensures
        r == dark_mode_of_stored(stored_view(v)),
{
    match v {
        Some(s) => {
            let t = String::from_str("true");
            let owned = s.to_owned();
            owned == t
        },
        None => false,
    }
}

/// What is stored for a flag reads back as that flag.
pub proof fn lemma_stored_round_trip(dark: bool)
    ensures
        dark_mode_of_stored(Some(stored_text(dark))) == dark,
{
    reveal_strlit("true");
    reveal_strlit("false");
    if !dark {
        assert(stored_text(dark).len() != "true"@.len());
    }
}

} // verus!
