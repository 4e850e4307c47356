use vstd::prelude::*;

verus! {

/// A host-provided module that the frontend can reach.
#[derive(Clone, Copy, Debug, PartialEq, Eq, Structural)]
pub enum Capability {
    Filesystem,
    Dialog,
    Notification,
    Shell,
    SqlStorage,
}

/// The capabilities that the application exposes.
pub open spec fn exposed() -> Set<Capability> {
    set![
        Capability::Filesystem,
        Capability::Dialog,
        Capability::Notification,
        Capability::Shell,
        Capability::SqlStorage,
    ]
}

/// The set of capability modules, built once at start-up and never changed.
pub struct Registry {
    modules: Vec<Capability>,
}

impl Registry {
    /// The capabilities held.
    pub closed spec fn view(&self) -> Set<Capability> {
        self.modules@.to_set()
    }

    /// Each capability is held once.
    #[verifier::type_invariant]
    pub closed spec fn wf(&self) -> bool {
        self.modules@.no_duplicates()
    }

    /// Assembles the fixed set of capabilities. The order carries no meaning.
    pub fn build() -> (r: Registry)
        ensures
            r@ == exposed(),
    {
        let modules = vec![
            Capability::Filesystem,
            Capability::Dialog,
            Capability::Notification,
            Capability::Shell,
            Capability::SqlStorage,
        ];
        let r = Registry { modules };
        assert(r.modules@.to_set() =~= exposed()) by {
            assert forall|c: Capability| exposed().contains(c) implies r.modules@.contains(c) by {
                match c {
                    Capability::Filesystem => assert(r.modules@[0] == c),
                    Capability::Dialog => assert(r.modules@[1] == c),
                    Capability::Notification => assert(r.modules@[2] == c),
                    Capability::Shell => assert(r.modules@[3] == c),
                    Capability::SqlStorage => assert(r.modules@[4] == c),
                }
            }
        }
        r
    }

    /// Whether `c` is held.
    pub fn contains(&self, c: Capability) -> (r: bool)
        ensures
            r == self@.contains(c),
    {
        let mut i: usize = 0;
        while i < self.modules.len()
            invariant
                0 <= i <= self.modules@.len(),
                forall|j: int| 0 <= j < i ==> self.modules@[j] != c,
            decreases self.modules@.len() - i,
        {
            if self.modules[i] == c {
                return true;
            }
            i += 1;
        }
        false
    }

    /// The capabilities held, each once, to be registered with the host.
    pub fn modules(&self) -> (r: Vec<Capability>)
        ensures
            r@.to_set() == self@,
            r@.no_duplicates(),
    {
        proof {
            use_type_invariant(self);
        }
        let mut r: Vec<Capability> = Vec::new();
        let mut i: usize = 0;
        while i < self.modules.len()
            invariant
                0 <= i <= self.modules@.len(),
                r@ == self.modules@.subrange(0, i as int),
            decreases self.modules@.len() - i,
        {
            r.push(self.modules[i]);
            assert(r@ =~= self.modules@.subrange(0, i + 1));
            i += 1;
        }
        assert(r@ =~= self.modules@);
        r
    }
}

} // verus!
