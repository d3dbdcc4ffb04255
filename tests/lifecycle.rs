use plotty::commands::{is_error, plot_name};
use plotty::errors::PlotError;
use plotty::geometry::{Perimeter, Point, Region};
use plotty::lifecycle::{find_collisions, Action, Event, Outcome, Request, Session, Write};

/// A registry and a region tool kept in memory, for driving sessions.
struct Fake {
    regions: Vec<Region>,
    counters: Vec<(u64, i64)>,
    sent: Vec<String>,
    writes: usize,
    fail_command: Option<usize>,
    token: Option<bool>,
}

impl Fake {
    fn new() -> Fake {
        Fake { regions: Vec::new(), counters: Vec::new(), sent: Vec::new(), writes: 0, fail_command: None, token: Some(true) }
    }

    fn run(&mut self, request: Request) -> Result<Outcome, PlotError> {
        let (mut session, mut action) = Session::start(request);
        let mut confirm: Option<(String, String)> = None;
        loop {
            let event = match action {
                Action::ReadCounter(owner) => {
                    Event::Counter(self.counters.iter().find(|c| c.0 == owner).map(|c| c.1))
                }
                Action::ListRegions => Event::Regions(self.regions.clone()),
                Action::Lookup(name) => Event::Found(self.regions.iter().find(|r| r.name == name).cloned()),
                Action::Confirm { affirm, cancel, .. } => {
                    assert_eq!(affirm.len(), 23);
                    assert_eq!(cancel.len(), 27);
                    assert!(affirm.ends_with("-ok") && cancel.ends_with("-cancel"));
                    assert_eq!(affirm[..20], cancel[..20]);
                    assert!(affirm[..20].chars().all(|c| c.is_ascii_digit() || ('a'..='v').contains(&c)));
                    assert_ne!(affirm, cancel);
                    confirm = Some((affirm.clone(), cancel.clone()));
                    match self.token {
                        Some(true) => Event::Token(Some(affirm)),
                        Some(false) => Event::Token(Some(cancel)),
                        None => Event::Token(None),
                    }
                }
                Action::Connect => Event::Connected,
                Action::Send(cmd) => {
                    let failing = self.fail_command == Some(self.sent.len());
                    self.sent.push(cmd);
                    if failing {
                        Event::Reply("\u{a7}cNo such world.".to_string())
                    } else {
                        Event::Reply("ok".to_string())
                    }
                }
                Action::Close => Event::Closed,
                Action::Write(w) => {
                    self.writes += 1;
                    match w {
                        Write::IncrementCounter(owner) => {
                            match self.counters.iter_mut().find(|c| c.0 == owner) {
                                Some(c) => c.1 += 1,
                                None => self.counters.push((owner, 1)),
                            }
                        }
                        Write::Insert(r) => self.regions.push(r),
                        Write::UpdatePerimeter(name, p) => {
                            for r in self.regions.iter_mut() {
                                if r.name == name {
                                    r.perimeter = p;
                                }
                            }
                        }
                        Write::Remove(name) => self.regions.retain(|r| r.name != name),
                    }
                    Event::Written
                }
                Action::Finish(result) => {
                    let _ = confirm;
                    return result;
                }
            };
            assert!(session.accepts(&event));
            action = session.step(event);
        }
    }
}

fn create(owner: u64, user: &str, p: Perimeter) -> Request {
    Request::Create { owner, user_name: user.to_string(), perimeter: p, world: "world".to_string() }
}

fn rect(ax: i64, az: i64, bx: i64, bz: i64) -> Perimeter {
    Perimeter(Point(ax, az), Point(bx, bz))
}

#[test]
fn create_then_colliding_create() {
    let mut fake = Fake::new();
    let first = fake.run(create(1, "alice", rect(0, 0, 10, 10)));
    match first {
        Ok(Outcome::Created(name)) => assert_eq!(name, "alice_plot_1"),
        other => panic!("unexpected {:?}", other),
    }
    assert_eq!(fake.regions.len(), 1);
    assert_eq!(fake.regions[0].owner, 1);
    assert_eq!(fake.counters, vec![(1, 1)]);
    assert_eq!(
        fake.sent,
        vec![
            "//world world".to_string(),
            "//pos1 0,0,0".to_string(),
            "//pos2 10,0,10".to_string(),
            "//expand vert".to_string(),
            "region create alice_plot_1 alice".to_string(),
        ]
    );

    let second = fake.run(create(2, "bob", rect(5, 5, 15, 15)));
    match second {
        Err(PlotError::Collision(n)) => assert_eq!(n, 1),
        other => panic!("unexpected {:?}", other),
    }
    assert_eq!(fake.regions.len(), 1);
    assert_eq!(fake.sent.len(), 5);
}

#[test]
fn owner_may_overlap_own_plots() {
    let mut fake = Fake::new();
    assert!(fake.run(create(1, "a_l_i_c_e", rect(0, 0, 10, 10))).is_ok());
    match fake.run(create(1, "a_l_i_c_e", rect(5, 5, 15, 15))) {
        Ok(Outcome::Created(name)) => assert_eq!(name, "alice_plot_2"),
        other => panic!("unexpected {:?}", other),
    }
    assert_eq!(fake.regions.len(), 2);
}

#[test]
fn redefine_by_stranger_is_refused() {
    let mut fake = Fake::new();
    assert!(fake.run(create(1, "alice", rect(0, 0, 10, 10))).is_ok());
    let sent = fake.sent.len();
    let writes = fake.writes;
    let r = fake.run(Request::Redefine {
        owner: 2,
        plot: "alice_plot_1".to_string(),
        perimeter: rect(0, 0, 3, 3),
        world: "world".to_string(),
    });
    assert!(matches!(r, Err(PlotError::NotOwner)));
    assert_eq!(fake.regions[0].perimeter, rect(0, 0, 10, 10));
    assert_eq!(fake.sent.len(), sent);
    assert_eq!(fake.writes, writes);
}

#[test]
fn redefine_missing_plot_is_refused() {
    let mut fake = Fake::new();
    let r = fake.run(Request::Redefine {
        owner: 2,
        plot: "nothing".to_string(),
        perimeter: rect(0, 0, 3, 3),
        world: "world".to_string(),
    });
    assert!(matches!(r, Err(PlotError::NotOwner)));
}

#[test]
fn redefine_by_owner_updates_perimeter() {
    let mut fake = Fake::new();
    assert!(fake.run(create(1, "alice", rect(0, 0, 10, 10))).is_ok());
    assert!(fake.run(create(2, "bob", rect(20, 20, 30, 30))).is_ok());
    let r = fake.run(Request::Redefine {
        owner: 1,
        plot: "alice_plot_1".to_string(),
        perimeter: rect(-5, -5, 12, 12),
        world: "nether".to_string(),
    });
    assert!(matches!(r, Ok(Outcome::Redefined)));
    assert_eq!(fake.regions[0].perimeter, rect(-5, -5, 12, 12));
    assert_eq!(fake.sent.last().unwrap(), "rg update alice_plot_1");
    assert!(fake.sent.contains(&"//pos1 -5,0,-5".to_string()));
    assert!(fake.sent.contains(&"//world nether".to_string()));

    let clash = fake.run(Request::Redefine {
        owner: 1,
        plot: "alice_plot_1".to_string(),
        perimeter: rect(0, 0, 25, 25),
        world: "world".to_string(),
    });
    assert!(matches!(clash, Err(PlotError::Collision(1))));
    assert_eq!(fake.regions[0].perimeter, rect(-5, -5, 12, 12));
}

#[test]
fn unconfirmed_delete_keeps_plot() {
    let mut fake = Fake::new();
    assert!(fake.run(create(1, "alice", rect(0, 0, 10, 10))).is_ok());
    let sent = fake.sent.len();
    fake.token = None;
    let r = fake.run(Request::Delete { owner: 1, plot: "alice_plot_1".to_string(), world: "world".to_string() });
    assert!(matches!(r, Err(PlotError::TimedOut)));
    assert_eq!(fake.regions.len(), 1);
    assert_eq!(fake.sent.len(), sent);
}

#[test]
fn cancelled_delete_keeps_plot() {
    let mut fake = Fake::new();
    assert!(fake.run(create(1, "alice", rect(0, 0, 10, 10))).is_ok());
    fake.token = Some(false);
    let r = fake.run(Request::Delete { owner: 1, plot: "alice_plot_1".to_string(), world: "world".to_string() });
    assert!(matches!(r, Ok(Outcome::Cancelled)));
    assert_eq!(fake.regions.len(), 1);
}

#[test]
fn confirmed_delete_removes_plot() {
    let mut fake = Fake::new();
    assert!(fake.run(create(1, "alice", rect(0, 0, 10, 10))).is_ok());
    let r = fake.run(Request::Delete { owner: 1, plot: "alice_plot_1".to_string(), world: "world".to_string() });
    assert!(matches!(r, Ok(Outcome::Deleted)));
    assert!(fake.regions.is_empty());
    assert_eq!(fake.sent.last().unwrap(), "rg delete -w world alice_plot_1");
}

#[test]
fn failing_command_leaves_registry_untouched() {
    let mut fake = Fake::new();
    fake.fail_command = Some(2);
    let r = fake.run(create(1, "alice", rect(0, 0, 10, 10)));
    match r {
        Err(PlotError::External(m)) => assert_eq!(m, "\u{a7}cNo such world."),
        other => panic!("unexpected {:?}", other),
    }
    assert_eq!(fake.sent.len(), 3);
    assert_eq!(fake.writes, 0);
    assert!(fake.regions.is_empty());
    assert!(fake.counters.is_empty());
}

#[test]
fn members_change_needs_owner() {
    let mut fake = Fake::new();
    assert!(fake.run(create(1, "alice", rect(0, 0, 10, 10))).is_ok());
    let r = fake.run(Request::AddMember {
        owner: 1,
        plot: "alice_plot_1".to_string(),
        member: "bob".to_string(),
        world: "world".to_string(),
    });
    assert!(matches!(r, Ok(Outcome::MemberAdded)));
    assert_eq!(fake.sent.last().unwrap(), "rg addmember -w world alice_plot_1 bob");
    let r = fake.run(Request::RemoveMember {
        owner: 1,
        plot: "alice_plot_1".to_string(),
        member: "bob".to_string(),
        world: "world".to_string(),
    });
    assert!(matches!(r, Ok(Outcome::MemberRemoved)));
    assert_eq!(fake.sent.last().unwrap(), "rg removemember -w world alice_plot_1 bob");
    let r = fake.run(Request::AddMember {
        owner: 3,
        plot: "alice_plot_1".to_string(),
        member: "eve".to_string(),
        world: "world".to_string(),
    });
    assert!(matches!(r, Err(PlotError::NotOwner)));
    assert_eq!(fake.writes, 2);
}

#[test]
fn transport_and_storage_failures() {
    let (mut s, a) = Session::start(create(1, "alice", rect(0, 0, 1, 1)));
    assert!(matches!(a, Action::ReadCounter(1)));
    let a = s.step(Event::Counter(Some(41)));
    assert!(matches!(a, Action::ListRegions));
    let a = s.step(Event::Regions(Vec::new()));
    assert!(matches!(a, Action::Connect));
    assert!(!s.accepts(&Event::Closed));
    let a = s.step(Event::TransportFailed("refused".to_string()));
    match a {
        Action::Finish(Err(e)) => assert_eq!(e.message(), "RCON connection failed: refused"),
        _ => panic!("unexpected action"),
    }

    let (mut s, _) = Session::start(create(1, "alice", rect(0, 0, 1, 1)));
    s.step(Event::Counter(None));
    s.step(Event::Regions(Vec::new()));
    s.step(Event::Connected);
    let a = s.step(Event::TransportFailed("broken pipe".to_string()));
    assert!(matches!(a, Action::Close));
    match s.step(Event::Closed) {
        Action::Finish(Err(PlotError::Transport(m))) => assert_eq!(m, "broken pipe"),
        _ => panic!("unexpected action"),
    }

    let (mut s, _) = Session::start(create(1, "alice", rect(0, 0, 1, 1)));
    match s.step(Event::StorageFailed("db down".to_string())) {
        Action::Finish(Err(PlotError::Storage(m))) => assert_eq!(m, "db down"),
        _ => panic!("unexpected action"),
    }
}

#[test]
fn plot_names_use_counter_and_strip_underscores() {
    assert_eq!(plot_name("alice", 0), "alice_plot_1");
    assert_eq!(plot_name("_a_b_", 9), "ab_plot_10");
    assert_eq!(plot_name("x", -3), "x_plot_-2");
}

#[test]
fn error_replies_are_recognised() {
    assert!(is_error("\u{a7}cUnknown region"));
    assert!(!is_error("Region created"));
    assert!(!is_error("\u{a7}"));
    assert!(!is_error("c\u{a7}"));
}

#[test]
fn collisions_are_counted_across_owners() {
    let regions = vec![
        Region { perimeter: rect(0, 0, 10, 10), name: "a".to_string(), owner: 1 },
        Region { perimeter: rect(8, 8, 20, 20), name: "b".to_string(), owner: 2 },
        Region { perimeter: rect(2, 2, 4, 4), name: "c".to_string(), owner: 3 },
        Region { perimeter: rect(50, 50, 60, 60), name: "d".to_string(), owner: 3 },
    ];
    assert_eq!(find_collisions(&regions, 4, &rect(1, 1, 9, 9)), vec![0, 1, 2]);
    assert_eq!(find_collisions(&regions, 1, &rect(1, 1, 9, 9)), vec![1, 2]);
    assert_eq!(find_collisions(&regions, 3, &rect(55, 0, 57, 100)), Vec::<usize>::new());
    assert_eq!(find_collisions(&regions, 4, &rect(55, 55, 70, 70)), vec![3]);
    assert!(find_collisions(&regions, 4, &rect(10, 0, 12, 2)).is_empty());
}

#[test]
fn error_messages() {
    assert_eq!(
        PlotError::Collision(1).message(),
        "The perimeter of your defined plot would collide with 1 other plot!"
    );
    assert_eq!(
        PlotError::Collision(3).message(),
        "The perimeter of your defined plot would collide with 3 other plots!"
    );
    assert_eq!(PlotError::TimedOut.message(), "Timed out.");
    assert_eq!(PlotError::External("\u{a7}cbad".to_string()).message(), "\u{a7}cbad");
}

#[test]
fn unknown_token_does_not_delete() {
    let (mut s, _) = Session::start(Request::Delete { owner: 1, plot: "p".to_string(), world: "world".to_string() });
    let r = Region { perimeter: rect(0, 0, 1, 1), name: "p".to_string(), owner: 1 };
    let (affirm, cancel) = match s.step(Event::Found(Some(r))) {
        Action::Confirm { affirm, cancel, .. } => (affirm, cancel),
        _ => panic!("unexpected action"),
    };
    assert_ne!(affirm, cancel);
    let a = s.step(Event::Token(Some("something else".to_string())));
    assert!(matches!(a, Action::Finish(Ok(Outcome::Cancelled))));
}
