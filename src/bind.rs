//! Binding a chat account to a game name: the rules around the whitelist.
use vstd::prelude::*;

verus! {

/// The characters of Unicode's `White_Space` property.
pub open spec fn is_white_space(c: char) -> bool {
    ('\u{9}' <= c <= '\u{d}') || c == ' ' || c == '\u{85}' || c == '\u{a0}' || c == '\u{1680}'
        || ('\u{2000}' <= c <= '\u{200a}') || c == '\u{2028}' || c == '\u{2029}'
        || c == '\u{202f}' || c == '\u{205f}' || c == '\u{3000}'
}

/// `s` without its leading white space.
pub open spec fn trim_start(s: Seq<char>) -> Seq<char>
    decreases s.len(),
{
    if s.len() > 0 && is_white_space(s[0]) {
        trim_start(s.drop_first())
    } else {
        s
    }
}

/// `s` without its trailing white space.
pub open spec fn trim_end(s: Seq<char>) -> Seq<char>
    decreases s.len(),
{
    if s.len() > 0 && is_white_space(s.last()) {
        trim_end(s.drop_last())
    } else {
        s
    }
}

/// `s` without leading and trailing white space.
pub open spec fn trimmed(s: Seq<char>) -> Seq<char> {
    trim_end(trim_start(s))
}

/// Relies on str::trim: the text with the leading and trailing characters of
/// Unicode's `White_Space` property removed.
#[verifier::external_body]
fn trim(s: &str) -> (r: &str)
    ensures
        r@ == trimmed(s@),
{
    s.trim()
}

pub open spec fn unknown_player_reply() -> Seq<char> {
    "That player does not exist"@
}

/// Whether a reply of the whitelist says that the name belongs to no player.
pub fn is_unknown_player(reply: &str) -> (r: bool)
    ensures
        r == (trimmed(reply@) == unknown_player_reply()),
{
    crate::text::same_text(trim(reply), "That player does not exist")
}

/// A game name bound to `bound_to` cannot be bound by `requester` when it
/// already belongs to another account.
pub fn taken_by_other(bound_to: Option<u64>, requester: u64) -> (r: bool)
    ensures
        r == (bound_to matches Some(id) && id != requester),
{
    match bound_to {
        Some(id) => id != requester,
        None => false,
    }
}

/// The command that puts `name` on the whitelist.
pub fn whitelist_add(name: &str) -> (r: String)
    ensures
        r@ == "whitelist add "@ + name@,
{
    let mut s = String::from_str("whitelist add ");
    s.append(name);
    s
}

/// The command that takes `name` off the whitelist.
pub fn whitelist_remove(name: &str) -> (r: String)
    ensures
        r@ == "whitelist remove "@ + name@,
{
    let mut s = String::from_str("whitelist remove ");
    s.append(name);
    s
}

} // verus!
