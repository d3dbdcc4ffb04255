//! The decisions of the plot lifecycle as a state machine.
//!
//! A `Session` runs one request. Each call of `step` takes what the last
//! action brought back (an `Event`) and names the next `Action`: read the
//! registry, ask the requester to confirm, open a connection to the region
//! tool, send it a command, close the connection, write the registry, or
//! finish with a result. The caller performs each action; the session
//! decides. The registry is written only after the whole command sequence
//! was answered without an error, and a session finishes only after the
//! connection it opened was closed.
use vstd::prelude::*;
use crate::commands::{
    add_member, add_member_command, create_command, create_plot, delete_command, delete_plot,
    is_error, is_error_reply, plot_name, remove_member, remove_member_command, select_commands,
    select_perimeter, spec_plot_name, update_command, update_plot,
};
use crate::errors::{PlotError, PlotErrorView};
use crate::geometry::{Perimeter, Point, Region};

verus! {

/// What a requester asks for.
pub enum Request {
    /// A new plot for `owner`, named from the owner's plot counter.
    Create { owner: u64, user_name: String, perimeter: Perimeter, world: String },
    /// A new perimeter for the owner's plot `plot`.
    Redefine { owner: u64, plot: String, perimeter: Perimeter, world: String },
    /// The removal of the owner's plot `plot`, once confirmed.
    Delete { owner: u64, plot: String, world: String },
    /// A new member of the owner's plot `plot`.
    AddMember { owner: u64, plot: String, member: String, world: String },
    /// The removal of a member of the owner's plot `plot`.
    RemoveMember { owner: u64, plot: String, member: String, world: String },
}

/// A change of the region registry.
pub enum Write {
    IncrementCounter(u64),
    Insert(Region),
    UpdatePerimeter(String, Perimeter),
    Remove(String),
}

pub enum WriteView {
    IncrementCounter(u64),
    Insert(u64, Seq<char>, Perimeter),
    UpdatePerimeter(Seq<char>, Perimeter),
    Remove(Seq<char>),
}

impl View for Write {
    type V = WriteView;

    open spec fn view(&self) -> WriteView {
        match self {
            Write::IncrementCounter(o) => WriteView::IncrementCounter(*o),
            Write::Insert(r) => WriteView::Insert(r.owner, r.name@, r.perimeter),
            Write::UpdatePerimeter(n, p) => WriteView::UpdatePerimeter(n@, *p),
            Write::Remove(n) => WriteView::Remove(n@),
        }
    }
}

/// What a request achieved.
#[derive(Debug)]
pub enum Outcome {
    Created(String),
    Redefined,
    Deleted,
    Cancelled,
    MemberAdded,
    MemberRemoved,
}

pub enum OutcomeView {
    Created(Seq<char>),
    Redefined,
    Deleted,
    Cancelled,
    MemberAdded,
    MemberRemoved,
}

impl View for Outcome {
    type V = OutcomeView;

    open spec fn view(&self) -> OutcomeView {
        match self {
            Outcome::Created(n) => OutcomeView::Created(n@),
            Outcome::Redefined => OutcomeView::Redefined,
            Outcome::Deleted => OutcomeView::Deleted,
            Outcome::Cancelled => OutcomeView::Cancelled,
            Outcome::MemberAdded => OutcomeView::MemberAdded,
            Outcome::MemberRemoved => OutcomeView::MemberRemoved,
        }
    }
}

/// The next thing the caller is to do.
pub enum Action {
    /// Read the owner's plot counter; answer `Counter`.
    ReadCounter(u64),
    /// Read all regions; answer `Regions`.
    ListRegions,
    /// Read the region of that name; answer `Found`.
    Lookup(String),
    /// Ask the requester to confirm the deletion of `plot` with one of two
    /// distinct single-use tokens; answer `Token`.
    Confirm { plot: String, affirm: String, cancel: String },
    /// Open an authenticated connection to the region tool; answer
    /// `Connected`.
    Connect,
    /// Send this command over the open connection; answer `Reply`.
    Send(String),
    /// Close the connection; answer `Closed`.
    Close,
    /// Apply this change to the registry; answer `Written`.
    Write(Write),
    /// The request is over.
    Finish(Result<Outcome, PlotError>),
}

pub enum ActionView {
    ReadCounter(u64),
    ListRegions,
    Lookup(Seq<char>),
    Confirm(Seq<char>, Seq<char>, Seq<char>),
    Connect,
    Send(Seq<char>),
    Close,
    Write(WriteView),
    Finish(Result<OutcomeView, PlotErrorView>),
}

impl View for Action {
    type V = ActionView;

    open spec fn view(&self) -> ActionView {
        match self {
            Action::ReadCounter(o) => ActionView::ReadCounter(*o),
            Action::ListRegions => ActionView::ListRegions,
            Action::Lookup(n) => ActionView::Lookup(n@),
            Action::Confirm { plot, affirm, cancel } => ActionView::Confirm(plot@, affirm@, cancel@),
            Action::Connect => ActionView::Connect,
            Action::Send(c) => ActionView::Send(c@),
            Action::Close => ActionView::Close,
            Action::Write(w) => ActionView::Write(w@),
            Action::Finish(Ok(o)) => ActionView::Finish(Ok(o@)),
            Action::Finish(Err(e)) => ActionView::Finish(Err(e@)),
        }
    }
}

/// What the last action brought back.
pub enum Event {
    /// The owner's plot counter, if it has one.
    Counter(Option<i64>),
    /// All regions of the registry.
    Regions(Vec<Region>),
    /// The region of the looked-up name, if there is one.
    Found(Option<Region>),
    /// The token the requester chose, or none within the waiting time.
    Token(Option<String>),
    Connected,
    /// The region tool's reply to the last command.
    Reply(String),
    Closed,
    Written,
    /// The registry failed.
    StorageFailed(String),
    /// The connection to the region tool failed.
    TransportFailed(String),
}

/// Where a session stands.
#[derive(Clone, Copy, Debug, PartialEq, Eq, Structural)]
pub enum Stage {
    AwaitCounter,
    AwaitRegion,
    AwaitRegions,
    AwaitConfirmation,
    AwaitConnection,
    AwaitReply,
    AwaitClose,
    AwaitWrite,
    Finished,
}

/// A region collides with a perimeter asked for by `owner` when it belongs
/// to someone else and the two intersect.
pub open spec fn collides(r: Region, owner: u64, p: Perimeter) -> bool {
    r.owner != owner && r.perimeter.spec_intersects(p)
}

/// The positions, in order, of the regions that collide with `p` asked for
/// by `owner`.
pub open spec fn collisions_in(regions: Seq<Region>, owner: u64, p: Perimeter) -> Seq<usize>
    decreases regions.len(),
{
    if regions.len() == 0 {
        Seq::empty()
    } else {
        let rest = collisions_in(regions.drop_last(), owner, p);
        if collides(regions.last(), owner, p) {
            rest.push((regions.len() - 1) as usize)
        } else {
            rest
        }
    }
}

/// The positions listed are exactly those of the colliding regions, each
/// once and in increasing order.
pub proof fn lemma_collisions_exact(regions: Seq<Region>, owner: u64, p: Perimeter)
    requires
        regions.len() <= usize::MAX,
    ensures
        forall|k: int| 0 <= k < collisions_in(regions, owner, p).len() ==> {
            let i = #[trigger] collisions_in(regions, owner, p)[k] as int;
            0 <= i < regions.len() && collides(regions[i], owner, p)
        },
        forall|i: int| 0 <= i < regions.len() && collides(#[trigger] regions[i], owner, p) ==>
            collisions_in(regions, owner, p).contains(i as usize),
        forall|k: int, l: int| 0 <= k < l < collisions_in(regions, owner, p).len() ==>
            collisions_in(regions, owner, p)[k] < collisions_in(regions, owner, p)[l],
    decreases regions.len(),
{
    if regions.len() > 0 {
        let pre = regions.drop_last();
        lemma_collisions_exact(pre, owner, p);
        let rest = collisions_in(pre, owner, p);
        let all = collisions_in(regions, owner, p);
        let n = regions.len() - 1;
        assert forall|k: int| 0 <= k < all.len() implies {
            let i = #[trigger] all[k] as int;
            0 <= i < regions.len() && collides(regions[i], owner, p)
        } by {
            if k < rest.len() {
                assert(all[k] == rest[k]);
                assert(pre[rest[k] as int] == regions[rest[k] as int]);
            }
        }
        assert forall|i: int| 0 <= i < regions.len() && collides(#[trigger] regions[i], owner, p)
            implies all.contains(i as usize) by {
            if i < n {
                assert(pre[i] == regions[i]);
                let k = choose|k: int| 0 <= k < rest.len() && rest[k] == i as usize;
                assert(all[k] == i as usize);
            } else {
                assert(all[all.len() - 1] == i as usize);
            }
        }
        assert forall|k: int, l: int| 0 <= k < l < all.len() implies all[k] < all[l] by {
            if l < rest.len() {
                assert(all[k] == rest[k] && all[l] == rest[l]);
            } else if k < rest.len() {
                assert(all[k] == rest[k]);
                assert(0 <= rest[k] < pre.len());
            }
        }
    }
}

/// The positions of the regions of other owners that `perimeter` would
/// intersect, in registry order.
pub fn find_collisions(regions: &Vec<Region>, owner: u64, perimeter: &Perimeter) -> (r: Vec<usize>)
    ensures
        r@ == collisions_in(regions@, owner, *perimeter),
{
    let mut out: Vec<usize> = Vec::new();
    let mut i: usize = 0;
    while i < regions.len()
        invariant
            0 <= i <= regions@.len(),
            out@ == collisions_in(regions@.subrange(0, i as int), owner, *perimeter),
        decreases regions@.len() - i,
    {
        let ghost pre = regions@.subrange(0, i as int);
        assert(regions@.subrange(0, i as int + 1).drop_last() =~= pre);
        let r = &regions[i];
        if r.owner != owner && r.perimeter.intersects(perimeter) {
            out.push(i);
        }
        i += 1;
    }
    assert(regions@.subrange(0, regions@.len() as int) =~= regions@);
    out
}

/// The alphabet of confirmation tokens.
pub open spec fn is_token_char(c: char) -> bool {
    ('0' <= c <= '9') || ('a' <= c <= 'v')
}

/// Relies on xid::new and the `Display` of xid::Id: a fresh id of twenty
/// characters of the base-32 alphabet `0-9a-v`. Its value depends on the
/// time and on the machine.
#[verifier::external_body]
fn new_token() -> (r: String)
    ensures
        r@.len() == 20,
        forall|i: int| 0 <= i < r@.len() ==> is_token_char(#[trigger] r@[i]),
{
    xid::new().to_string()
}

proof fn lemma_plan_nonempty(r: Request, plot: Seq<char>)
    ensures
        r.commands_for(plot).len() >= 1,
{
    match r {
        Request::Create { .. } => {},
        Request::Redefine { .. } => {},
        _ => {},
    }
}

impl Request {
    pub open spec fn requester(self) -> u64 {
        match self {
            Request::Create { owner, .. } => owner,
            Request::Redefine { owner, .. } => owner,
            Request::Delete { owner, .. } => owner,
            Request::AddMember { owner, .. } => owner,
            Request::RemoveMember { owner, .. } => owner,
        }
    }

    /// The plot a request names; a new plot is named by the session.
    pub open spec fn target(self) -> Seq<char> {
        match self {
            Request::Create { .. } => Seq::empty(),
            Request::Redefine { plot, .. } => plot@,
            Request::Delete { plot, .. } => plot@,
            Request::AddMember { plot, .. } => plot@,
            Request::RemoveMember { plot, .. } => plot@,
        }
    }

    /// Whether the request is checked against the other owners' plots.
    pub open spec fn scans(self) -> bool {
        self is Create || self is Redefine
    }

    pub open spec fn asked_perimeter(self) -> Perimeter {
        match self {
            Request::Create { perimeter, .. } => perimeter,
            Request::Redefine { perimeter, .. } => perimeter,
            _ => Perimeter(Point(0, 0), Point(0, 0)),
        }
    }

    pub open spec fn user_name_of(self) -> Seq<char> {
        match self {
            Request::Create { user_name, .. } => user_name@,
            _ => Seq::empty(),
        }
    }

    /// The commands sent to the region tool, in order, for plot `plot`.
    pub open spec fn commands_for(self, plot: Seq<char>) -> Seq<Seq<char>> {
        match self {
            Request::Create { user_name, perimeter, world, .. } =>
                select_commands(perimeter, world@).push(create_command(plot, user_name@)),
            Request::Redefine { perimeter, world, .. } =>
                select_commands(perimeter, world@).push(update_command(plot)),
            Request::Delete { world, .. } => seq![delete_command(plot, world@)],
            Request::AddMember { member, world, .. } =>
                seq![add_member_command(plot, member@, world@)],
            Request::RemoveMember { member, world, .. } =>
                seq![remove_member_command(plot, member@, world@)],
        }
    }

    /// The registry changes made, in order, once the commands succeeded.
    pub open spec fn writes_for(self, plot: Seq<char>) -> Seq<WriteView> {
        match self {
            Request::Create { owner, perimeter, .. } => seq![
                WriteView::IncrementCounter(owner),
                WriteView::Insert(owner, plot, perimeter),
            ],
            Request::Redefine { perimeter, .. } => seq![WriteView::UpdatePerimeter(plot, perimeter)],
            Request::Delete { .. } => seq![WriteView::Remove(plot)],
            _ => Seq::empty(),
        }
    }

    pub open spec fn outcome_for(self, plot: Seq<char>) -> OutcomeView {
        match self {
            Request::Create { .. } => OutcomeView::Created(plot),
            Request::Redefine { .. } => OutcomeView::Redefined,
            Request::Delete { .. } => OutcomeView::Deleted,
            Request::AddMember { .. } => OutcomeView::MemberAdded,
            Request::RemoveMember { .. } => OutcomeView::MemberRemoved,
        }
    }

    fn owner(&self) -> (r: u64)
        ensures
            r == self.requester(),
    {
        match self {
            Request::Create { owner, .. } => *owner,
            Request::Redefine { owner, .. } => *owner,
            Request::Delete { owner, .. } => *owner,
            Request::AddMember { owner, .. } => *owner,
            Request::RemoveMember { owner, .. } => *owner,
        }
    }

    fn build_commands(&self, plot: &String) -> (r: Vec<String>)
        ensures
            r@.map_values(|c: String| c@) == self.commands_for(plot@),
    {
        let mut out: Vec<String> = Vec::new();
        assert(out@.map_values(|c: String| c@) =~= Seq::<Seq<char>>::empty());
        match self {
            Request::Create { user_name, perimeter, world, .. } => {
                select_perimeter(&mut out, perimeter, world.as_str());
                out.push(create_plot(plot.as_str(), user_name.as_str()));
                assert(out@.map_values(|c: String| c@) =~= self.commands_for(plot@));
            },
            Request::Redefine { perimeter, world, .. } => {
                select_perimeter(&mut out, perimeter, world.as_str());
                out.push(update_plot(plot.as_str()));
                assert(out@.map_values(|c: String| c@) =~= self.commands_for(plot@));
            },
            Request::Delete { world, .. } => {
                out.push(delete_plot(plot.as_str(), world.as_str()));
                assert(out@.map_values(|c: String| c@) =~= self.commands_for(plot@));
            },
            Request::AddMember { member, world, .. } => {
                out.push(add_member(plot.as_str(), member.as_str(), world.as_str()));
                assert(out@.map_values(|c: String| c@) =~= self.commands_for(plot@));
            },
            Request::RemoveMember { member, world, .. } => {
                out.push(remove_member(plot.as_str(), member.as_str(), world.as_str()));
                assert(out@.map_values(|c: String| c@) =~= self.commands_for(plot@));
            },
        }
        out
    }

    fn write_count(&self) -> (n: usize)
        ensures
            n == self.writes_for(Seq::empty()).len(),
            forall|p: Seq<char>| #[trigger] self.writes_for(p).len() == n,
    {
        match self {
            Request::Create { .. } => 2,
            Request::Redefine { .. } => 1,
            Request::Delete { .. } => 1,
            _ => 0,
        }
    }

    fn write_at(&self, plot: &String, i: usize) -> (w: Write)
        requires
            i < self.writes_for(plot@).len(),
        ensures
            w@ == self.writes_for(plot@)[i as int],
    {
        match self {
            Request::Create { owner, perimeter, .. } => {
                if i == 0 {
                    Write::IncrementCounter(*owner)
                } else {
                    Write::Insert(Region { perimeter: *perimeter, name: plot.clone(), owner: *owner })
                }
            },
            Request::Redefine { perimeter, .. } => Write::UpdatePerimeter(plot.clone(), *perimeter),
            Request::Delete { .. } => Write::Remove(plot.clone()),
            Request::AddMember { owner, .. } | Request::RemoveMember { owner, .. } => {
                proof {
                    assert(false);
                }
                Write::IncrementCounter(*owner)
            },
        }
    }

    fn outcome(&self, plot: &String) -> (o: Outcome)
        ensures
            o@ == self.outcome_for(plot@),
    {
        match self {
            Request::Create { .. } => Outcome::Created(plot.clone()),
            Request::Redefine { .. } => Outcome::Redefined,
            Request::Delete { .. } => Outcome::Deleted,
            Request::AddMember { .. } => Outcome::MemberAdded,
            Request::RemoveMember { .. } => Outcome::MemberRemoved,
        }
    }
}

/// One request on its way through the lifecycle.
pub struct Session {
    pub request: Request,
    pub stage: Stage,
    /// The plot the request is about; for a new plot, its name once the
    /// owner's counter was read.
    pub plot: String,
    /// The commands for the region tool, fixed once the checks passed.
    pub commands: Vec<String>,
    /// How many commands were answered without an error.
    pub sent: usize,
    /// How many registry changes were made.
    pub written: usize,
    /// A failure to report once the connection is closed.
    pub failure: Option<PlotError>,
    pub affirm: String,
    pub cancel: String,
    /// The replies to the commands answered so far.
    pub replies: Ghost<Seq<Seq<char>>>,
}

impl Session {
    pub open spec fn planned(self) -> bool {
        self.commands@.map_values(|c: String| c@) == self.request.commands_for(self.plot@)
    }

    pub open spec fn writes(self) -> Seq<WriteView> {
        self.request.writes_for(self.plot@)
    }

    /// Every command sent so far got a reply without the error marker.
    pub open spec fn replies_ok(self) -> bool {
        &&& self.replies@.len() == self.sent
        &&& forall|i: int| 0 <= i < self.sent ==> !is_error_reply(#[trigger] self.replies@[i])
    }

    /// Nothing has been sent or written yet, and nothing failed.
    pub open spec fn untouched(self) -> bool {
        self.sent == 0 && self.written == 0 && self.failure is None
    }

    pub open spec fn wf(self) -> bool {
        &&& self.replies_ok()
        &&& !(self.request is Create) ==> self.plot@ == self.request.target()
        &&& match self.stage {
            Stage::AwaitCounter => self.request is Create && self.untouched(),
            Stage::AwaitRegion => !(self.request is Create) && self.untouched(),
            Stage::AwaitRegions => self.request.scans() && self.untouched(),
            Stage::AwaitConfirmation => {
                &&& self.request is Delete
                &&& self.untouched()
                &&& self.affirm@ != self.cancel@
            },
            Stage::AwaitConnection => self.planned() && self.untouched(),
            Stage::AwaitReply => {
                &&& self.planned()
                &&& self.sent < self.commands@.len()
                &&& self.failure is None
                &&& self.written == 0
            },
            Stage::AwaitClose => {
                &&& self.planned()
                &&& self.sent <= self.commands@.len()
                &&& self.failure is None ==> self.sent == self.commands@.len()
                &&& self.written == 0
            },
            Stage::AwaitWrite => {
                &&& self.planned()
                &&& self.sent == self.commands@.len()
                &&& self.failure is None
                &&& self.written < self.writes().len()
            },
            Stage::Finished => true,
        }
    }

    /// The events each stage takes.
    pub open spec fn spec_accepts(self, e: Event) -> bool {
        match self.stage {
            Stage::AwaitCounter => e is Counter || e is StorageFailed,
            Stage::AwaitRegion => e is Found || e is StorageFailed,
            Stage::AwaitRegions => e is Regions || e is StorageFailed,
            Stage::AwaitConfirmation => e is Token,
            Stage::AwaitConnection => e is Connected || e is TransportFailed,
            Stage::AwaitReply => e is Reply || e is TransportFailed,
            Stage::AwaitClose => e is Closed,
            Stage::AwaitWrite => e is Written || e is StorageFailed,
            Stage::Finished => false,
        }
    }

    /// The checks passed: connect to the region tool with the plan fixed.
    pub open spec fn connecting(t: Session, a: ActionView) -> bool {
        &&& t.stage == Stage::AwaitConnection
        &&& t.planned()
        &&& a == ActionView::Connect
    }

    pub open spec fn finishing(t: Session, a: ActionView, r: Result<OutcomeView, PlotErrorView>) -> bool {
        &&& t.stage == Stage::Finished
        &&& a == ActionView::Finish(r)
    }

    /// What `step` does: from session `s` and event `e` to session `t` and
    /// action `a`.
    pub open spec fn transition(s: Session, e: Event, t: Session, a: ActionView) -> bool {
        let owner = s.request.requester();
        &&& t.request == s.request
        &&& t.wf()
        &&& match s.stage {
            Stage::AwaitCounter => match e {
                Event::Counter(c) => {
                    let n: int = match c { Some(v) => v as int, None => 0 };
                    &&& t.stage == Stage::AwaitRegions
                    &&& t.plot@ == spec_plot_name(s.request.user_name_of(), n)
                    &&& a == ActionView::ListRegions
                },
                Event::StorageFailed(m) => Self::finishing(t, a, Err(PlotErrorView::Storage(m@))),
                _ => false,
            },
            Stage::AwaitRegion => match e {
                Event::Found(Some(r)) if r.owner == owner => {
                    &&& t.plot == s.plot
                    &&& if s.request is Redefine {
                        t.stage == Stage::AwaitRegions && a == ActionView::ListRegions
                    } else if s.request is Delete {
                        &&& t.stage == Stage::AwaitConfirmation
                        &&& a == ActionView::Confirm(s.plot@, t.affirm@, t.cancel@)
                        &&& t.affirm@ != t.cancel@
                    } else {
                        Self::connecting(t, a)
                    }
                },
                Event::Found(_) => Self::finishing(t, a, Err(PlotErrorView::NotOwner)) && t.untouched(),
                Event::StorageFailed(m) => Self::finishing(t, a, Err(PlotErrorView::Storage(m@))),
                _ => false,
            },
            Stage::AwaitRegions => match e {
                Event::Regions(v) => {
                    let n = collisions_in(v@, owner, s.request.asked_perimeter()).len();
                    &&& t.plot == s.plot
                    &&& if n > 0 {
                        Self::finishing(t, a, Err(PlotErrorView::Collision(n as usize))) && t.untouched()
                    } else {
                        Self::connecting(t, a)
                    }
                },
                Event::StorageFailed(m) => Self::finishing(t, a, Err(PlotErrorView::Storage(m@))),
                _ => false,
            },
            Stage::AwaitConfirmation => match e {
                Event::Token(None) => Self::finishing(t, a, Err(PlotErrorView::TimedOut)) && t.untouched(),
                Event::Token(Some(k)) => if k@ == s.affirm@ {
                    Self::connecting(t, a) && t.plot == s.plot
                } else {
                    Self::finishing(t, a, Ok(OutcomeView::Cancelled)) && t.untouched()
                },
                _ => false,
            },
            Stage::AwaitConnection => match e {
                Event::Connected => {
                    &&& t.stage == Stage::AwaitReply
                    &&& t.plot == s.plot
                    &&& t.commands@ == s.commands@
                    &&& t.sent == 0
                    &&& a == ActionView::Send(s.commands@[0]@)
                },
                Event::TransportFailed(m) => Self::finishing(t, a, Err(PlotErrorView::Connection(m@))) && t.untouched(),
                _ => false,
            },
            Stage::AwaitReply => {
                &&& t.plot == s.plot
                &&& t.commands@ == s.commands@
                &&& match e {
                    Event::Reply(b) => if is_error_reply(b@) {
                        &&& t.stage == Stage::AwaitClose
                        &&& t.sent == s.sent
                        &&& t.failure == Some(PlotError::External(b))
                        &&& a == ActionView::Close
                    } else if s.sent + 1 < s.commands@.len() {
                        &&& t.stage == Stage::AwaitReply
                        &&& t.sent == s.sent + 1
                        &&& t.replies@ == s.replies@.push(b@)
                        &&& a == ActionView::Send(s.commands@[s.sent + 1]@)
                    } else {
                        &&& t.stage == Stage::AwaitClose
                        &&& t.sent == s.sent + 1
                        &&& t.replies@ == s.replies@.push(b@)
                        &&& t.failure is None
                        &&& a == ActionView::Close
                    },
                    Event::TransportFailed(m) => {
                        &&& t.stage == Stage::AwaitClose
                        &&& t.sent == s.sent
                        &&& t.failure == Some(PlotError::Transport(m))
                        &&& a == ActionView::Close
                    },
                    _ => false,
                }
            },
            Stage::AwaitClose => match s.failure {
                Some(f) => Self::finishing(t, a, Err(f@)) && t.written == 0,
                None => if s.writes().len() == 0 {
                    Self::finishing(t, a, Ok(s.request.outcome_for(s.plot@)))
                } else {
                    &&& t.stage == Stage::AwaitWrite
                    &&& t.plot == s.plot
                    &&& t.written == 0
                    &&& a == ActionView::Write(s.writes()[0])
                },
            },
            Stage::AwaitWrite => match e {
                Event::Written => if s.written + 1 < s.writes().len() {
                    &&& t.stage == Stage::AwaitWrite
                    &&& t.plot == s.plot
                    &&& t.written == s.written + 1
                    &&& a == ActionView::Write(s.writes()[s.written + 1])
                } else {
                    Self::finishing(t, a, Ok(s.request.outcome_for(s.plot@)))
                },
                Event::StorageFailed(m) => Self::finishing(t, a, Err(PlotErrorView::Storage(m@))),
                _ => false,
            },
            Stage::Finished => false,
        }
    }
}


impl Session {
    /// Opens a session for `request` and names its first action: read the
    /// owner's counter for a new plot, else look up the named plot.
    pub fn start(request: Request) -> (r: (Session, Action))
        ensures
            r.0.wf(),
            r.0.request == request,
            r.0.untouched(),
            request is Create ==> r.0.stage == Stage::AwaitCounter
                && r.1@ == ActionView::ReadCounter(request.requester()),
            !(request is Create) ==> r.0.stage == Stage::AwaitRegion
                && r.1@ == ActionView::Lookup(request.target()),
    {
        let (stage, plot) = match &request {
            Request::Create { .. } => (Stage::AwaitCounter, String::new()),
            Request::Redefine { plot, .. } => (Stage::AwaitRegion, plot.clone()),
            Request::Delete { plot, .. } => (Stage::AwaitRegion, plot.clone()),
            Request::AddMember { plot, .. } => (Stage::AwaitRegion, plot.clone()),
            Request::RemoveMember { plot, .. } => (Stage::AwaitRegion, plot.clone()),
        };
        let action = if stage == Stage::AwaitCounter {
            Action::ReadCounter(request.owner())
        } else {
            Action::Lookup(plot.clone())
        };
        let session = Session {
            request,
            stage,
            plot,
            commands: Vec::new(),
            sent: 0,
            written: 0,
            failure: None,
            affirm: String::new(),
            cancel: String::new(),
            replies: Ghost(Seq::empty()),
        };
        (session, action)
    }

    /// Whether the session, where it stands, takes `e`.
    pub fn accepts(&self, e: &Event) -> (r: bool)
        ensures
            r == self.spec_accepts(*e),
    {
        match (self.stage, e) {
            (Stage::AwaitCounter, Event::Counter(_)) => true,
            (Stage::AwaitRegion, Event::Found(_)) => true,
            (Stage::AwaitRegions, Event::Regions(_)) => true,
            (Stage::AwaitConfirmation, Event::Token(_)) => true,
            (Stage::AwaitConnection, Event::Connected) => true,
            (Stage::AwaitReply, Event::Reply(_)) => true,
            (Stage::AwaitClose, Event::Closed) => true,
            (Stage::AwaitWrite, Event::Written) => true,
            (Stage::AwaitCounter, Event::StorageFailed(_)) => true,
            (Stage::AwaitRegion, Event::StorageFailed(_)) => true,
            (Stage::AwaitRegions, Event::StorageFailed(_)) => true,
            (Stage::AwaitWrite, Event::StorageFailed(_)) => true,
            (Stage::AwaitConnection, Event::TransportFailed(_)) => true,
            (Stage::AwaitReply, Event::TransportFailed(_)) => true,
            _ => false,
        }
    }

    /// The checks passed: fix the commands and ask for a connection.
    fn connect(&mut self) -> (a: Action)
        requires
            old(self).replies_ok(),
            old(self).untouched(),
            !(old(self).request is Create) ==> old(self).plot@ == old(self).request.target(),
        ensures
            final(self).request == old(self).request,
            final(self).plot == old(self).plot,
            final(self).wf(),
            Self::connecting(*final(self), a@),
    {
        self.commands = self.request.build_commands(&self.plot);
        self.stage = Stage::AwaitConnection;
        Action::Connect
    }

    fn finish(&mut self, r: Result<Outcome, PlotError>) -> (a: Action)
        ensures
            final(self).request == old(self).request,
            final(self).plot == old(self).plot,
            final(self).sent == old(self).sent,
            final(self).written == old(self).written,
            final(self).replies == old(self).replies,
            final(self).failure == old(self).failure,
            final(self).stage == Stage::Finished,
            a == Action::Finish(r),
    {
        self.stage = Stage::Finished;
        Action::Finish(r)
    }

    /// Takes what the last action brought back and names the next action.
    pub fn step(&mut self, event: Event) -> (a: Action)
        requires
            old(self).wf(),
            old(self).spec_accepts(event),
        ensures
            Self::transition(*old(self), event, *final(self), a@),
    {
        match (self.stage, event) {
            (Stage::AwaitCounter, Event::Counter(c)) => {
                let n: i64 = match c {
                    Some(v) => v,
                    None => 0,
                };
                if let Request::Create { user_name, .. } = &self.request {
                    self.plot = plot_name(user_name.as_str(), n);
                }
                self.stage = Stage::AwaitRegions;
                Action::ListRegions
            },
            (Stage::AwaitRegion, Event::Found(found)) => {
                let owner = self.request.owner();
                match found {
                    Some(r) if r.owner == owner => {
                        match &self.request {
                            Request::Redefine { .. } => {
                                self.stage = Stage::AwaitRegions;
                                Action::ListRegions
                            },
                            Request::Delete { .. } => {
                                let token = new_token();
                                let mut affirm = token.clone();
                                affirm.append("-ok");
                                let mut cancel = token;
                                cancel.append("-cancel");
                                proof {
                                    reveal_strlit("-ok");
                                    reveal_strlit("-cancel");
                                    assert(affirm@.len() != cancel@.len());
                                }
                                self.affirm = affirm;
                                self.cancel = cancel;
                                self.stage = Stage::AwaitConfirmation;
                                Action::Confirm {
                                    plot: self.plot.clone(),
                                    affirm: self.affirm.clone(),
                                    cancel: self.cancel.clone(),
                                }
                            },
                            _ => self.connect(),
                        }
                    },
                    _ => self.finish(Err(PlotError::NotOwner)),
                }
            },
            (Stage::AwaitRegions, Event::Regions(regions)) => {
                let n = find_collisions(&regions, self.request.owner(), &self.request_perimeter()).len();
                if n > 0 {
                    self.finish(Err(PlotError::Collision(n)))
                } else {
                    self.connect()
                }
            },
            (Stage::AwaitConfirmation, Event::Token(token)) => match token {
                None => self.finish(Err(PlotError::TimedOut)),
                Some(k) => {
                    if k == self.affirm {
                        self.connect()
                    } else {
                        self.finish(Ok(Outcome::Cancelled))
                    }
                },
            },
            (Stage::AwaitConnection, Event::Connected) => {
                proof {
                    lemma_plan_nonempty(self.request, self.plot@);
                    assert(self.commands@.map_values(|c: String| c@).len() == self.commands@.len());
                }
                self.stage = Stage::AwaitReply;
                Action::Send(self.commands[0].clone())
            },
            (Stage::AwaitConnection, Event::TransportFailed(m)) => {
                self.finish(Err(PlotError::Connection(m)))
            },
            (Stage::AwaitReply, Event::Reply(body)) => {
                if is_error(body.as_str()) {
                    self.failure = Some(PlotError::External(body));
                    self.stage = Stage::AwaitClose;
                    Action::Close
                } else {
                    proof {
                        assert(self.commands@.map_values(|c: String| c@).len() == self.commands@.len());
                    }
                    self.replies = Ghost(self.replies@.push(body@));
                    self.sent = self.sent + 1;
                    if self.sent < self.commands.len() {
                        Action::Send(self.commands[self.sent].clone())
                    } else {
                        self.stage = Stage::AwaitClose;
                        Action::Close
                    }
                }
            },
            (Stage::AwaitReply, Event::TransportFailed(m)) => {
                self.failure = Some(PlotError::Transport(m));
                self.stage = Stage::AwaitClose;
                Action::Close
            },
            (Stage::AwaitClose, _) => {
                let failure = self.failure.take();
                match failure {
                    Some(f) => self.finish(Err(f)),
                    None => {
                        if self.request.write_count() == 0 {
                            let o = self.request.outcome(&self.plot);
                            self.finish(Ok(o))
                        } else {
                            self.stage = Stage::AwaitWrite;
                            Action::Write(self.request.write_at(&self.plot, 0))
                        }
                    },
                }
            },
            (Stage::AwaitWrite, Event::Written) => {
                self.written = self.written + 1;
                if self.written < self.request.write_count() {
                    Action::Write(self.request.write_at(&self.plot, self.written))
                } else {
                    let o = self.request.outcome(&self.plot);
                    self.finish(Ok(o))
                }
            },
            (_, Event::StorageFailed(m)) => self.finish(Err(PlotError::Storage(m))),
            (_, _) => {
                proof {
                    assert(false);
                }
                Action::Close
            },
        }
    }

    fn request_perimeter(&self) -> (p: Perimeter)
        ensures
            p == self.request.asked_perimeter(),
    {
        match &self.request {
            Request::Create { perimeter, .. } => *perimeter,
            Request::Redefine { perimeter, .. } => *perimeter,
            _ => Perimeter(Point(0, 0), Point(0, 0)),
        }
    }
}


/// A finished session takes no further event, so it asks for nothing more.
pub proof fn lemma_finished_is_final(s: Session, e: Event)
    requires
        s.stage == Stage::Finished,
    ensures
        !s.spec_accepts(e),
{
}

/// The registry is asked for a change only after every command of the
/// sequence was answered, each without the error marker.
pub proof fn lemma_writes_follow_success(s: Session, e: Event, t: Session, a: ActionView)
    requires
        s.wf(),
        s.spec_accepts(e),
        Session::transition(s, e, t, a),
        a is Write,
    ensures
        t.stage == Stage::AwaitWrite,
        t.failure is None,
        t.sent == t.commands@.len(),
        t.replies@.len() == t.commands@.len(),
        forall|i: int| 0 <= i < t.commands@.len() ==> !is_error_reply(#[trigger] t.replies@[i]),
{
}

/// A sequence that fails at the region tool, or cannot reach it, ends the
/// session without any change of the registry.
pub proof fn lemma_external_failure_writes_nothing(s: Session, e: Event, t: Session, a: ActionView)
    requires
        s.wf(),
        s.spec_accepts(e),
        Session::transition(s, e, t, a),
        a matches ActionView::Finish(Err(f)) && (f is External || f is Transport || f is Connection),
    ensures
        t.stage == Stage::Finished,
        t.written == 0,
{
}

/// A plot that is missing or belongs to someone else is refused before any
/// check, command or change.
pub proof fn lemma_foreign_plot_refused(s: Session, e: Event, t: Session, a: ActionView)
    requires
        s.wf(),
        s.stage == Stage::AwaitRegion,
        e matches Event::Found(found) && (found is None || found->Some_0.owner != s.request.requester()),
        Session::transition(s, e, t, a),
    ensures
        a == ActionView::Finish(Err(PlotErrorView::NotOwner)),
        t.stage == Stage::Finished,
        t.untouched(),
{
}

/// Without a confirmation in time, a deletion ends with no command sent and
/// no change of the registry.
pub proof fn lemma_unconfirmed_delete_kept(s: Session, t: Session, a: ActionView)
    requires
        s.wf(),
        s.stage == Stage::AwaitConfirmation,
        Session::transition(s, Event::Token(None), t, a),
    ensures
        s.request is Delete,
        a == ActionView::Finish(Err(PlotErrorView::TimedOut)),
        t.stage == Stage::Finished,
        t.untouched(),
{
}

/// The two confirmation tokens differ: the affirming one deletes, the
/// cancelling one, or any other, ends the session with no change.
pub proof fn lemma_tokens_exclusive(s: Session, k: String, t: Session, a: ActionView)
    requires
        s.wf(),
        s.stage == Stage::AwaitConfirmation,
        Session::transition(s, Event::Token(Some(k)), t, a),
    ensures
        s.affirm@ != s.cancel@,
        k@ == s.affirm@ ==> a == ActionView::Connect && t.stage == Stage::AwaitConnection,
        k@ != s.affirm@ ==> a == ActionView::Finish(Ok(OutcomeView::Cancelled)) && t.untouched(),
        k@ == s.cancel@ ==> a == ActionView::Finish(Ok(OutcomeView::Cancelled)),
{
}

/// While the connection is open the session only sends commands or closes
/// it: it never finishes with the connection left open.
pub proof fn lemma_connection_closed_before_finish(s: Session, e: Event, t: Session, a: ActionView)
    requires
        s.wf(),
        s.stage == Stage::AwaitReply,
        s.spec_accepts(e),
        Session::transition(s, e, t, a),
    ensures
        a is Send || a is Close,
        a is Send ==> t.stage == Stage::AwaitReply,
        a is Close ==> t.stage == Stage::AwaitClose,
{
}

} // verus!
