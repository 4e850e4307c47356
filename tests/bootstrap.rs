use std::collections::HashSet;

use app_bootstrap::bootstrap::{Action, Bootstrap, Event, FatalError, Phase};
use app_bootstrap::layout::{Provision, Subdirectory};

/// A scripted host: a data root, the directories that exist, and those
/// whose creation fails. Directories are named "root" or by their name.
struct FakeHost {
    data_root: Option<String>,
    present: HashSet<String>,
    blocked: HashSet<String>,
    created: Vec<String>,
    actions: Vec<Action>,
}

impl FakeHost {
    fn new(data_root: Option<&str>) -> FakeHost {
        FakeHost {
            data_root: data_root.map(|r| r.to_string()),
            present: HashSet::new(),
            blocked: HashSet::new(),
            created: Vec::new(),
            actions: Vec::new(),
        }
    }

    fn create(&mut self, key: String) -> Event {
        if self.present.contains(&key) {
            Event::Created
        } else if self.blocked.contains(&key) {
            Event::CreationFailed
        } else {
            self.present.insert(key.clone());
            self.created.push(key);
            Event::Created
        }
    }

    fn answer(&mut self, a: &Action) -> Event {
        self.actions.push(a.clone());
        match a {
            Action::ResolveRoot => match &self.data_root {
                Some(r) => Event::RootLocated { root: r.clone() },
                None => Event::RootUnavailable,
            },
            Action::CreateRoot { .. } => self.create("root".to_string()),
            Action::CreateSubdirectory { dir, .. } => self.create(dir.name().to_string()),
            Action::Serve | Action::Abort { .. } => panic!("final action has no answer"),
        }
    }
}

fn launch(host: &mut FakeHost) -> Phase {
    let mut b = Bootstrap::new();
    while !b.is_done() {
        let a = b.pending();
        let e = host.answer(&a);
        b.advance(e);
    }
    b.phase().clone()
}

fn all_available() -> Provision {
    Provision { photos: true, attachments: true, backups: true, contracts: true }
}

#[test]
fn first_launch_creates_layout() {
    let mut host = FakeHost::new(Some("/data/app"));
    match launch(&mut host) {
        Phase::Ready { root, report } => {
            assert_eq!(root, "/data/app");
            assert_eq!(report, all_available());
        },
        other => panic!("not ready: {:?}", other),
    }
    assert_eq!(host.created, vec!["root", "photos", "attachments", "backups", "contracts"]);
}

#[test]
fn relaunch_on_populated_root_is_identical() {
    let mut host = FakeHost::new(Some("/data/app"));
    let first = launch(&mut host);
    let created_first = host.created.clone();
    let second = launch(&mut host);
    let third = launch(&mut host);
    match (&first, &second, &third) {
        (
            Phase::Ready { root: r1, report: p1 },
            Phase::Ready { root: r2, report: p2 },
            Phase::Ready { root: r3, report: p3 },
        ) => {
            assert_eq!(r1, r2);
            assert_eq!(r2, r3);
            assert_eq!(*p1, all_available());
            assert_eq!(p1, p2);
            assert_eq!(p2, p3);
        },
        other => panic!("not ready: {:?}", other),
    }
    assert_eq!(host.created, created_first);
}

#[test]
fn uncreatable_root_is_fatal_before_any_subdirectory() {
    let mut host = FakeHost::new(Some("/readonly/app"));
    host.blocked.insert("root".to_string());
    match launch(&mut host) {
        Phase::Failed { error } => assert_eq!(error, FatalError::RootUncreatable),
        other => panic!("not failed: {:?}", other),
    }
    assert!(host.created.is_empty());
    assert_eq!(host.actions.len(), 2);
    assert!(
        host.actions.iter().all(|a| !matches!(a, Action::CreateSubdirectory { .. }))
    );
}

#[test]
fn missing_data_root_is_fatal() {
    let mut host = FakeHost::new(None);
    match launch(&mut host) {
        Phase::Failed { error } => assert_eq!(error, FatalError::EnvironmentUnavailable),
        other => panic!("not failed: {:?}", other),
    }
    assert_eq!(host.actions.len(), 1);
    assert!(host.created.is_empty());
}

#[test]
fn one_failed_subdirectory_is_tolerated() {
    for bad in Subdirectory::all() {
        let mut host = FakeHost::new(Some("/data/app"));
        host.blocked.insert(bad.name().to_string());
        match launch(&mut host) {
            Phase::Ready { report, .. } => {
                for d in Subdirectory::all() {
                    assert_eq!(report.available(d), d != bad);
                }
            },
            other => panic!("not ready: {:?}", other),
        }
        for d in Subdirectory::all() {
            assert_eq!(host.present.contains(d.name()), d != bad);
        }
        assert!(host.present.contains("root"));
    }
}

#[test]
fn existing_root_is_not_an_error() {
    let mut host = FakeHost::new(Some("/data/app"));
    host.present.insert("root".to_string());
    host.blocked.insert("root".to_string());
    assert!(matches!(launch(&mut host), Phase::Ready { .. }));
}

#[test]
fn pending_actions_follow_the_sequence() {
    let mut b = Bootstrap::new();
    assert!(matches!(b.pending(), Action::ResolveRoot));
    match b.advance(Event::RootLocated { root: "/r".to_string() }) {
        Action::CreateRoot { root } => assert_eq!(root, "/r"),
        other => panic!("unexpected {:?}", other),
    }
    let mut order = Vec::new();
    let mut a = b.advance(Event::Created);
    while let Action::CreateSubdirectory { root, dir } = a {
        assert_eq!(root, "/r");
        order.push(dir);
        a = b.advance(Event::Created);
    }
    assert!(matches!(a, Action::Serve));
    assert_eq!(order, Subdirectory::all());
}

#[test]
fn unrelated_event_repeats_pending_action() {
    let mut b = Bootstrap::new();
    assert!(matches!(b.advance(Event::Created), Action::ResolveRoot));
    b.advance(Event::RootLocated { root: "/r".to_string() });
    match b.advance(Event::RootUnavailable) {
        Action::CreateRoot { root } => assert_eq!(root, "/r"),
        other => panic!("unexpected {:?}", other),
    }
}

#[test]
fn final_phases_do_not_change() {
    let mut b = Bootstrap::new();
    b.advance(Event::RootUnavailable);
    assert!(b.is_done());
    assert!(matches!(
        b.advance(Event::RootLocated { root: "/r".to_string() }),
        Action::Abort { error: FatalError::EnvironmentUnavailable }
    ));
}
