use vstd::prelude::*;

use crate::error::ApiError;

verus! {

/// A release channel of the recipe service: which content tier a request asks
/// for. Its wire form is the lowercase variant name, sent in the
/// `X-Recipe-Type` header.
#[derive(Clone, Copy, Debug, PartialEq, Eq, Structural)]
pub enum RecipeType {
    Default,
    Live,
    Beta,
}

/// The canonical (lowercase) wire string of a channel.
pub open spec fn channel_str(c: RecipeType) -> Seq<char> {
    match c {
        RecipeType::Default => "default"@,
        RecipeType::Live => "live"@,
        RecipeType::Beta => "beta"@,
    }
}

/// One character of caller input against one character of a canonical
/// lowercase keyword: equal outright, or an ASCII upper-case letter against
/// its lower-case form.
pub open spec fn ci_char_eq(a: char, b: char) -> bool {
    a as int == b as int || (65 <= a as int <= 90 && a as int + 32 == b as int)
}

/// Whether `s` equals the lowercase keyword `kw` up to ASCII letter case.
pub open spec fn ci_matches(s: Seq<char>, kw: Seq<char>) -> bool {
    s.len() == kw.len() && forall|i: int| 0 <= i < s.len() ==> ci_char_eq(s[i], kw[i])
}

/// The channel a free-form string denotes: the keyword it matches up to ASCII
/// letter case, if any.
pub open spec fn spec_channel_from(s: Seq<char>) -> Option<RecipeType> {
    if ci_matches(s, "default"@) {
        Some(RecipeType::Default)
    } else if ci_matches(s, "live"@) {
        Some(RecipeType::Live)
    } else if ci_matches(s, "beta"@) {
        Some(RecipeType::Beta)
    } else {
        None
    }
}

fn ci_char_eq_exec(a: char, b: char) -> (r: bool)
    ensures
        r == ci_char_eq(a, b),
{
    let au = a as u32;
    let bu = b as u32;
    au == bu || (65 <= au && au <= 90 && au + 32 == bu)
}

fn ci_matches_exec(s: &str, kw: &str) -> (r: bool)
    ensures
        r == ci_matches(s@, kw@),
{
    let n = s.unicode_len();
    if n != kw.unicode_len() {
        return false;
    }
    for i in 0..n
        invariant
            n == s@.len(),
            n == kw@.len(),
            forall|j: int| 0 <= j < i ==> ci_char_eq(s@[j], kw@[j]),
    {
        if !ci_char_eq_exec(s.get_char(i), kw.get_char(i)) {
            return false;
        }
    }
    true
}

impl RecipeType {
    /// The canonical lowercase wire form of this channel, as sent in the
    /// `X-Recipe-Type` header.
    pub fn to_string(&self) -> (r: String)
        ensures
            r@ == channel_str(*self),
    {
        match self {
            RecipeType::Default => "default".to_owned(),
            RecipeType::Live => "live".to_owned(),
            RecipeType::Beta => "beta".to_owned(),
        }
    }

    /// Parse a free-form channel string: the three keywords are accepted in
    /// any ASCII letter casing; anything else is `InvalidChannelString`.
    pub fn from_str(s: &str) -> (r: Result<RecipeType, ApiError>)
        ensures
            spec_channel_from(s@) matches Some(c) ==> r == Ok::<RecipeType, ApiError>(c),
            spec_channel_from(s@) is None ==> r == Err::<RecipeType, ApiError>(
                ApiError::InvalidChannelString,
            ),
    {
        if ci_matches_exec(s, "default") {
            Ok(RecipeType::Default)
        } else if ci_matches_exec(s, "live") {
            Ok(RecipeType::Live)
        } else if ci_matches_exec(s, "beta") {
            Ok(RecipeType::Beta)
        } else {
            Err(ApiError::InvalidChannelString)
        }
    }
}

/// Law: each channel's canonical string parses back to that same channel.
pub proof fn lemma_channel_round_trip(c: RecipeType)
    ensures
        spec_channel_from(channel_str(c)) == Some(c),
{
    reveal_strlit("default");
    reveal_strlit("live");
    reveal_strlit("beta");
    assert(ci_matches(channel_str(c), channel_str(c)));
    assert(!ci_char_eq("live"@[0], "default"@[0]));
    assert(!ci_char_eq("beta"@[0], "default"@[0]));
    assert(!ci_char_eq("beta"@[0], "live"@[0]));
}

/// Law: a string that parses to channel `c` equals `c`'s canonical lowercase
/// string character for character, up to ASCII letter case.
pub proof fn lemma_channel_canonical(s: Seq<char>, c: RecipeType)
    requires
        spec_channel_from(s) == Some(c),
    ensures
        ci_matches(s, channel_str(c)),
{
}

} // verus!
