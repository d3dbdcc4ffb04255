//! How a plot operation can fail, and the text reported for each failure.
use vstd::prelude::*;
use crate::text::{decimal, decimal_of};

verus! {

/// Why a plot operation did not go through.
#[derive(Debug)]
pub enum PlotError {
    /// The plot does not exist or belongs to someone else.
    NotOwner,
    /// The perimeter would overlap this many plots of other owners.
    Collision(usize),
    /// The region tool refused a command; its reply, verbatim.
    External(String),
    /// No authenticated connection to the region tool could be opened.
    Connection(String),
    /// The connection to the region tool failed while sending a command.
    Transport(String),
    /// The region registry failed.
    Storage(String),
    /// No confirmation came within the waiting time.
    TimedOut,
}

pub enum PlotErrorView {
    NotOwner,
    Collision(usize),
    External(Seq<char>),
    Connection(Seq<char>),
    Transport(Seq<char>),
    Storage(Seq<char>),
    TimedOut,
}

impl View for PlotError {
    type V = PlotErrorView;

    open spec fn view(&self) -> PlotErrorView {
        match self {
            PlotError::NotOwner => PlotErrorView::NotOwner,
            PlotError::Collision(n) => PlotErrorView::Collision(*n),
            PlotError::External(m) => PlotErrorView::External(m@),
            PlotError::Connection(m) => PlotErrorView::Connection(m@),
            PlotError::Transport(m) => PlotErrorView::Transport(m@),
            PlotError::Storage(m) => PlotErrorView::Storage(m@),
            PlotError::TimedOut => PlotErrorView::TimedOut,
        }
    }
}

pub open spec fn collision_message(n: int) -> Seq<char> {
    "The perimeter of your defined plot would collide with "@ + decimal(n) + " other plot"@
        + (if n > 1 { "s"@ } else { ""@ }) + "!"@
}

/// The text shown for each failure. The region tool's and the transport's
/// own messages are passed on as they are.
pub open spec fn error_message(e: PlotErrorView) -> Seq<char> {
    match e {
        PlotErrorView::NotOwner => "You can not alter this plot."@,
        PlotErrorView::Collision(n) => collision_message(n as int),
        PlotErrorView::External(m) => m,
        PlotErrorView::Connection(m) => "RCON connection failed: "@ + m,
        PlotErrorView::Transport(m) => m,
        PlotErrorView::Storage(m) => m,
        PlotErrorView::TimedOut => "Timed out."@,
    }
}

impl PlotError {
    /// The text to show for this failure.
    pub fn message(&self) -> (r: String)
        ensures
            r@ == error_message(self@),
    {
        match self {
            PlotError::NotOwner => String::from_str("You can not alter this plot."),
            PlotError::Collision(n) => {
                let mut s = String::from_str(
                    "The perimeter of your defined plot would collide with ",
                );
                let d = decimal_of(*n as i128);
                s.append(d.as_str());
                s.append(" other plot");
                if *n > 1 {
                    s.append("s");
                } else {
                    s.append("");
                }
                s.append("!");
                s
            },
            PlotError::External(m) => m.clone(),
            PlotError::Connection(m) => {
                let mut s = String::from_str("RCON connection failed: ");
                s.append(m.as_str());
                s
            },
            PlotError::Transport(m) => m.clone(),
            PlotError::Storage(m) => m.clone(),
            PlotError::TimedOut => String::from_str("Timed out."),
        }
    }
}

} // verus!
