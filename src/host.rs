use vstd::prelude::*;

use crate::bootstrap::{is_final, next_phase, pending_of, Action, Event, FatalError, Phase};
use crate::layout::{Provision, Subdirectory};

verus! {

/// A directory that start-up may create.
pub enum Target {
    Root,
    Sub(Subdirectory),
}

/// A model of the host as start-up sees it: the data root it names, the
/// directories that exist, and those whose creation fails (no permission,
/// a file in the way, a full disk).
pub struct HostModel {
    pub data_root: Option<String>,
    pub present: Set<Target>,
    pub blocked: Set<Target>,
}

/// How the host carries out a creation: an existing directory is a success
/// with nothing changed; a blocked one fails with nothing changed; any other
/// is created.
pub open spec fn create(h: HostModel, t: Target) -> (HostModel, Event) {
    if h.present.contains(t) {
        (h, Event::Created)
    } else if h.blocked.contains(t) {
        (h, Event::CreationFailed)
    } else {
        (HostModel { present: h.present.insert(t), ..h }, Event::Created)
    }
}

/// How the host answers action `a`. The final actions have no answer; the
/// machine ignores what comes back for them.
pub open spec fn respond(h: HostModel, a: Action) -> (HostModel, Event) {
    match a {
        Action::ResolveRoot => match h.data_root {
            Some(root) => (h, Event::RootLocated { root }),
            None => (h, Event::RootUnavailable),
        },
        Action::CreateRoot { .. } => create(h, Target::Root),
        Action::CreateSubdirectory { dir, .. } => create(h, Target::Sub(dir)),
        _ => (h, Event::Created),
    }
}

/// Runs the machine from `p` against `h` for at most `fuel` steps: the phase
/// reached, the host after it, and the actions carried out.
pub open spec fn run(p: Phase, h: HostModel, fuel: nat) -> (Phase, HostModel, Seq<Action>)
    decreases fuel,
{
    if fuel == 0 || is_final(p) {
        (p, h, Seq::empty())
    } else {
        let a = pending_of(p);
        let (h1, e) = respond(h, a);
        let (p2, h2, trace) = run(next_phase(p, e), h1, (fuel - 1) as nat);
        (p2, h2, seq![a] + trace)
    }
}

/// The number of steps that a whole start-up takes at most: resolve, create
/// the root, create four subdirectories.
pub open spec fn launch_steps() -> nat {
    6
}

/// One launch of the application on host `h`.
pub open spec fn launch(h: HostModel) -> (Phase, HostModel, Seq<Action>) {
    run(Phase::RootResolving, h, launch_steps())
}

/// Whether the host has every directory of the layout.
pub open spec fn fully_populated(h: HostModel) -> bool {
    &&& h.present.contains(Target::Root)
    &&& forall|d: Subdirectory| #[trigger] h.present.contains(Target::Sub(d))
}

/// A report with every subdirectory available.
pub open spec fn all_available() -> Provision {
    Provision { photos: true, attachments: true, backups: true, contracts: true }
}

/// Whether `d` is there once a launch has tried to create it.
pub open spec fn obtainable(h: HostModel, d: Subdirectory) -> bool {
    h.present.contains(Target::Sub(d)) || !h.blocked.contains(Target::Sub(d))
}

/// The report of a launch on `h` that gets past the root.
pub open spec fn expected_report(h: HostModel) -> Provision {
    Provision {
        photos: obtainable(h, Subdirectory::Photos),
        attachments: obtainable(h, Subdirectory::Attachments),
        backups: obtainable(h, Subdirectory::Backups),
        contracts: obtainable(h, Subdirectory::Contracts),
    }
}

/// The host after a launch on `h` that gets past the root: every directory
/// that is not blocked exists.
pub open spec fn provisioned(h: HostModel) -> HostModel {
    HostModel { present: h.present.union(Set::new(|t: Target| !h.blocked.contains(t))), ..h }
}

/// Whether the root of `h` exists or can be created.
pub open spec fn root_obtainable(h: HostModel) -> bool {
    h.present.contains(Target::Root) || !h.blocked.contains(Target::Root)
}

/// Whether an action creates a subdirectory.
pub open spec fn creates_subdirectory(a: Action) -> bool {
    a is CreateSubdirectory
}

/// What one launch on `h` comes to: without a data root it fails at once;
/// with a root that cannot be created it fails before touching any
/// subdirectory; otherwise it is ready, with each subdirectory available
/// exactly when it existed or could be created.
pub proof fn lemma_launch(h: HostModel)
    ensures
        h.data_root is None ==> launch(h) == (
            Phase::Failed { error: FatalError::EnvironmentUnavailable },
            h,
            seq![Action::ResolveRoot],
        ),
        h.data_root is Some && !root_obtainable(h) ==> launch(h) == (
            Phase::Failed { error: FatalError::RootUncreatable },
            h,
            seq![Action::ResolveRoot, Action::CreateRoot { root: h.data_root->0 }],
        ),
        h.data_root is Some && root_obtainable(h) ==> {
            &&& launch(h).0 == (Phase::Ready { root: h.data_root->0, report: expected_report(h) })
            &&& launch(h).1.present =~= provisioned(h).present
            &&& launch(h).1.data_root == h.data_root
            &&& launch(h).1.blocked == h.blocked
        },
{
    reveal_with_fuel(run, 7);
    if h.data_root is Some && root_obtainable(h) {
        let root = h.data_root->0;
        let h1 = create(h, Target::Root).0;
        let h2 = create(h1, Target::Sub(Subdirectory::Photos)).0;
        let h3 = create(h2, Target::Sub(Subdirectory::Attachments)).0;
        let h4 = create(h3, Target::Sub(Subdirectory::Backups)).0;
        let h5 = create(h4, Target::Sub(Subdirectory::Contracts)).0;
        assert(launch(h).1 == h5);
        assert(h5.present =~= provisioned(h).present);
    }
}

/// Launching again on the host that a launch left behind ends in the same
/// phase and changes nothing: nothing is created twice and no new error
/// appears.
pub proof fn lemma_relaunch_identical(h: HostModel)
    ensures
        launch(launch(h).1).0 == launch(h).0,
        launch(launch(h).1).1 == launch(h).1,
{
    let h1 = launch(h).1;
    lemma_launch(h);
    lemma_launch(h1);
    if h.data_root is Some && root_obtainable(h) {
        assert(root_obtainable(h1));
        assert(expected_report(h1) == expected_report(h));
        let h2 = launch(h1).1;
        assert(h2.present =~= h1.present);
        assert(h2 == h1);
    }
}

/// On a host where the root and every subdirectory already exist, a launch
/// is ready with everything available and creates nothing.
pub proof fn lemma_populated_launch_ready(h: HostModel)
    requires
        h.data_root is Some,
        fully_populated(h),
    ensures
        launch(h).0 == (Phase::Ready { root: h.data_root->0, report: all_available() }),
        launch(h).1 == h,
{
    lemma_launch(h);
    assert(h.present.contains(Target::Sub(Subdirectory::Photos)));
    assert(h.present.contains(Target::Sub(Subdirectory::Attachments)));
    assert(h.present.contains(Target::Sub(Subdirectory::Backups)));
    assert(h.present.contains(Target::Sub(Subdirectory::Contracts)));
    assert(provisioned(h).present =~= h.present) by {
        assert forall|t: Target| provisioned(h).present.contains(t) implies h.present.contains(
            t,
        ) by {
            match t {
                Target::Root => {},
                Target::Sub(d) => assert(h.present.contains(Target::Sub(d))),
            }
        }
    }
    assert(launch(h).1 == h);
}

/// When the root cannot be created, a launch fails with a fatal error, is
/// never ready, and asks for no subdirectory.
pub proof fn lemma_root_failure_is_fatal(h: HostModel)
    requires
        h.data_root is Some,
        !h.present.contains(Target::Root),
        h.blocked.contains(Target::Root),
    ensures
        launch(h).0 == (Phase::Failed { error: FatalError::RootUncreatable }),
        !(launch(h).0 is Ready),
        forall|i: int| 0 <= i < launch(h).2.len() ==> !creates_subdirectory(#[trigger] launch(h).2[i]),
{
    lemma_launch(h);
}

/// Without a data root, a launch fails with a fatal error and creates
/// nothing.
pub proof fn lemma_missing_root_is_fatal(h: HostModel)
    requires
        h.data_root is None,
    ensures
        launch(h).0 == (Phase::Failed { error: FatalError::EnvironmentUnavailable }),
        launch(h).1 == h,
        forall|i: int| 0 <= i < launch(h).2.len() ==> !creates_subdirectory(#[trigger] launch(h).2[i]),
{
    lemma_launch(h);
}

/// When exactly one subdirectory cannot be created, a launch is still ready;
/// that one is reported unavailable and the other three exist.
pub proof fn lemma_one_subdirectory_failure_tolerated(h: HostModel, bad: Subdirectory)
    requires
        h.data_root is Some,
        root_obtainable(h),
        !h.present.contains(Target::Sub(bad)),
        h.blocked.contains(Target::Sub(bad)),
        forall|d: Subdirectory| d != bad ==> !(#[trigger] h.blocked.contains(Target::Sub(d))),
    ensures
        launch(h).0 == (Phase::Ready {
            root: h.data_root->0,
            report: all_available().with(bad, false),
        }),
        forall|d: Subdirectory| d != bad ==> (#[trigger] launch(h).1.present.contains(Target::Sub(d))),
        forall|d: Subdirectory| all_available().with(bad, false).has(d) <==> d != bad,
{
    lemma_launch(h);
    assert(!h.blocked.contains(Target::Sub(Subdirectory::Photos)) || bad == Subdirectory::Photos);
    assert(!h.blocked.contains(Target::Sub(Subdirectory::Attachments)) || bad == Subdirectory::Attachments);
    assert(!h.blocked.contains(Target::Sub(Subdirectory::Backups)) || bad == Subdirectory::Backups);
    assert(!h.blocked.contains(Target::Sub(Subdirectory::Contracts)) || bad == Subdirectory::Contracts);
    assert(expected_report(h) == all_available().with(bad, false));
    assert forall|d: Subdirectory| d != bad implies #[trigger] launch(h).1.present.contains(
        Target::Sub(d),
    ) by {
        assert(provisioned(h).present.contains(Target::Sub(d)));
    }
}

} // verus!
