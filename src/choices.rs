//! Suggestions offered while a requester types a plot or member name.
use vstd::prelude::*;
use crate::geometry::Region;
use crate::text::starts_with;

verus! {

/// The names of `plots` that begin with `typed`, in order.
pub open spec fn plot_names_with(plots: Seq<Region>, typed: Seq<char>) -> Seq<Seq<char>>
    decreases plots.len(),
{
    if plots.len() == 0 {
        Seq::empty()
    } else {
        let rest = plot_names_with(plots.drop_last(), typed);
        if typed.is_prefix_of(plots.last().name@) {
            rest.push(plots.last().name@)
        } else {
            rest
        }
    }
}

/// The positions of the users other than `requester` whose display name
/// begins with `typed`, in order.
pub open spec fn members_with(users: Seq<(u64, String)>, requester: u64, typed: Seq<char>) -> Seq<usize>
    decreases users.len(),
{
    if users.len() == 0 {
        Seq::empty()
    } else {
        let rest = members_with(users.drop_last(), requester, typed);
        let last = users.last();
        if last.0 != requester && typed.is_prefix_of(last.1@) {
            rest.push((users.len() - 1) as usize)
        } else {
            rest
        }
    }
}

/// The names of the requester's plots that begin with what was typed.
pub fn plot_choices(plots: &Vec<Region>, typed: &str) -> (r: Vec<String>)
    ensures
        r@.map_values(|s: String| s@) == plot_names_with(plots@, typed@),
{
    let mut out: Vec<String> = Vec::new();
    let mut i: usize = 0;
    while i < plots.len()
        invariant
            0 <= i <= plots@.len(),
            out@.map_values(|s: String| s@) == plot_names_with(plots@.subrange(0, i as int), typed@),
        decreases plots@.len() - i,
    {
        let ghost pre = plots@.subrange(0, i as int);
        assert(plots@.subrange(0, i as int + 1).drop_last() =~= pre);
        if starts_with(plots[i].name.as_str(), typed) {
            out.push(plots[i].name.clone());
            assert(out@.map_values(|s: String| s@) =~= plot_names_with(pre, typed@).push(plots@[i as int].name@));
        }
        i += 1;
    }
    assert(plots@.subrange(0, plots@.len() as int) =~= plots@);
    out
}

/// Which of `users` (account, display name) may be offered as members: all
/// but the requester whose display name begins with what was typed.
pub fn member_choices(users: &Vec<(u64, String)>, requester: u64, typed: &str) -> (r: Vec<usize>)
    ensures
        r@ == members_with(users@, requester, typed@),
{
    let mut out: Vec<usize> = Vec::new();
    let mut i: usize = 0;
    while i < users.len()
        invariant
            0 <= i <= users@.len(),
            out@ == members_with(users@.subrange(0, i as int), requester, typed@),
        decreases users@.len() - i,
    {
        let ghost pre = users@.subrange(0, i as int);
        assert(users@.subrange(0, i as int + 1).drop_last() =~= pre);
        if users[i].0 != requester && starts_with(users[i].1.as_str(), typed) {
            out.push(i);
        }
        i += 1;
    }
    assert(users@.subrange(0, users@.len() as int) =~= users@);
    out
}

} // verus!
