//! The commands sent to the world's region tool, and how its replies are read.
use vstd::prelude::*;
use crate::geometry::{Perimeter, Point};
use crate::text::{decimal, decimal_of, strip_underscores, without_underscores};

verus! {

/// The region tool marks a failed command by starting its reply with the
/// colour code `\u{a7}c`.
pub open spec fn is_error_reply(body: Seq<char>) -> bool {
    body.len() >= 2 && body[0] == '\u{a7}' && body[1] == 'c'
}

/// The default name of an owner's plot: the owner's name without
/// underscores, `_plot_`, and the owner's plot counter plus one.
pub open spec fn spec_plot_name(user_name: Seq<char>, counter: int) -> Seq<char> {
    without_underscores(user_name) + "_plot_"@ + decimal(counter + 1)
}

pub open spec fn corner_command(prefix: Seq<char>, c: Point) -> Seq<char> {
    prefix + decimal(c.0 as int) + ",0,"@ + decimal(c.1 as int)
}

/// Select the world, set both corners at height 0, and stretch the
/// selection over the full height.
pub open spec fn select_commands(p: Perimeter, world: Seq<char>) -> Seq<Seq<char>> {
    seq![
        "//world "@ + world,
        corner_command("//pos1 "@, p.0),
        corner_command("//pos2 "@, p.1),
        "//expand vert"@,
    ]
}

pub open spec fn create_command(plot: Seq<char>, user_name: Seq<char>) -> Seq<char> {
    "region create "@ + plot + " "@ + user_name
}

pub open spec fn update_command(plot: Seq<char>) -> Seq<char> {
    "rg update "@ + plot
}

pub open spec fn delete_command(plot: Seq<char>, world: Seq<char>) -> Seq<char> {
    "rg delete -w "@ + world + " "@ + plot
}

pub open spec fn add_member_command(plot: Seq<char>, member: Seq<char>, world: Seq<char>) -> Seq<char> {
    "rg addmember -w "@ + world + " "@ + plot + " "@ + member
}

pub open spec fn remove_member_command(plot: Seq<char>, member: Seq<char>, world: Seq<char>) -> Seq<char> {
    "rg removemember -w "@ + world + " "@ + plot + " "@ + member
}

/// Whether a reply of the region tool reports a failure.
pub fn is_error(body: &str) -> (r: bool)
    ensures
        r == is_error_reply(body@),
{
    let n = body.unicode_len();
    n >= 2 && body.get_char(0) == '\u{a7}' && body.get_char(1) == 'c'
}

/// The default name of an owner's next plot.
pub fn plot_name(user_name: &str, counter: i64) -> (r: String)
    ensures
        r@ == spec_plot_name(user_name@, counter as int),
{
    let mut s = strip_underscores(user_name);
    s.append("_plot_");
    let n = decimal_of(counter as i128 + 1);
    s.append(n.as_str());
    s
}

fn append_corner(prefix: &str, c: Point) -> (r: String)
    ensures
        r@ == corner_command(prefix@, c),
{
    let mut s = String::from_str(prefix);
    let x = decimal_of(c.0 as i128);
    s.append(x.as_str());
    s.append(",0,");
    let z = decimal_of(c.1 as i128);
    s.append(z.as_str());
    s
}

/// Pushes the commands that select `p` in `world` onto `out`.
pub fn select_perimeter(out: &mut Vec<String>, p: &Perimeter, world: &str)
    ensures
        final(out)@.map_values(|c: String| c@) == old(out)@.map_values(|c: String| c@)
            + select_commands(*p, world@),
{
    let ghost before = out@.map_values(|c: String| c@);
    let mut w = String::from_str("//world ");
    w.append(world);
    out.push(w);
    out.push(append_corner("//pos1 ", p.0));
    out.push(append_corner("//pos2 ", p.1));
    out.push(String::from_str("//expand vert"));
    assert(out@.map_values(|c: String| c@) =~= before + select_commands(*p, world@));
}

/// The command that creates region `plot` for `user_name` from the selection.
pub fn create_plot(plot: &str, user_name: &str) -> (r: String)
    ensures
        r@ == create_command(plot@, user_name@),
{
    let mut s = String::from_str("region create ");
    s.append(plot);
    s.append(" ");
    s.append(user_name);
    s
}

/// The command that moves region `plot` to the selection.
pub fn update_plot(plot: &str) -> (r: String)
    ensures
        r@ == update_command(plot@),
{
    let mut s = String::from_str("rg update ");
    s.append(plot);
    s
}

/// The command that deletes region `plot` of `world`.
pub fn delete_plot(plot: &str, world: &str) -> (r: String)
    ensures
        r@ == delete_command(plot@, world@),
{
    let mut s = String::from_str("rg delete -w ");
    s.append(world);
    s.append(" ");
    s.append(plot);
    s
}

/// The command that adds `member` to region `plot` of `world`.
pub fn add_member(plot: &str, member: &str, world: &str) -> (r: String)
    ensures
        r@ == add_member_command(plot@, member@, world@),
{
    let mut s = String::from_str("rg addmember -w ");
    s.append(world);
    s.append(" ");
    s.append(plot);
    s.append(" ");
    s.append(member);
    s
}

/// The command that removes `member` from region `plot` of `world`.
pub fn remove_member(plot: &str, member: &str, world: &str) -> (r: String)
    ensures
        r@ == remove_member_command(plot@, member@, world@),
{
    let mut s = String::from_str("rg removemember -w ");
    s.append(world);
    s.append(" ");
    s.append(plot);
    s.append(" ");
    s.append(member);
    s
}

} // verus!
