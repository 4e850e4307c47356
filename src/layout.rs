use vstd::prelude::*;

verus! {

/// One of the four application-owned children of the data root.
#[derive(Clone, Copy, Debug, PartialEq, Eq, Structural)]
pub enum Subdirectory {
    Photos,
    Attachments,
    Backups,
    Contracts,
}

/// The directory name of `d` under the data root.
pub open spec fn dir_name(d: Subdirectory) -> Seq<char> {
    match d {
        Subdirectory::Photos => "photos"@,
        Subdirectory::Attachments => "attachments"@,
        Subdirectory::Backups => "backups"@,
        Subdirectory::Contracts => "contracts"@,
    }
}

/// The order in which the subdirectories are provisioned.
pub open spec fn managed_order() -> Seq<Subdirectory> {
    seq![
        Subdirectory::Photos,
        Subdirectory::Attachments,
        Subdirectory::Backups,
        Subdirectory::Contracts,
    ]
}

/// The subdirectory provisioned after `d`, if any.
pub open spec fn successor(d: Subdirectory) -> Option<Subdirectory> {
    match d {
        Subdirectory::Photos => Some(Subdirectory::Attachments),
        Subdirectory::Attachments => Some(Subdirectory::Backups),
        Subdirectory::Backups => Some(Subdirectory::Contracts),
        Subdirectory::Contracts => None,
    }
}

impl Subdirectory {
    /// The first subdirectory to provision.
    pub fn first() -> (r: Subdirectory)
        ensures
            r == managed_order()[0],
    {
        Subdirectory::Photos
    }

    /// The subdirectory to provision after this one, or `None` after the last.
    pub fn following(self) -> (r: Option<Subdirectory>)
        ensures
            r == successor(self),
    {
        match self {
            Subdirectory::Photos => Some(Subdirectory::Attachments),
            Subdirectory::Attachments => Some(Subdirectory::Backups),
            Subdirectory::Backups => Some(Subdirectory::Contracts),
            Subdirectory::Contracts => None,
        }
    }

    /// The directory name under the data root.
    pub fn name(self) -> (r: &'static str)
        ensures
            r@ == dir_name(self),
    {
        match self {
            Subdirectory::Photos => "photos",
            Subdirectory::Attachments => "attachments",
            Subdirectory::Backups => "backups",
            Subdirectory::Contracts => "contracts",
        }
    }

    /// All managed subdirectories, in provisioning order.
    pub fn all() -> (r: Vec<Subdirectory>)
        ensures
            r@ == managed_order(),
    {
        let r = vec![
            Subdirectory::Photos,
            Subdirectory::Attachments,
            Subdirectory::Backups,
            Subdirectory::Contracts,
        ];
        assert(r@ =~= managed_order());
        r
    }
}

/// Which managed subdirectories are available: created or found in place.
/// A subdirectory whose creation failed is recorded as unavailable; that
/// failure is tolerated and never stops start-up.
#[derive(Clone, Copy, Debug, PartialEq, Eq, Structural)]
pub struct Provision {
    pub photos: bool,
    pub attachments: bool,
    pub backups: bool,
    pub contracts: bool,
}

impl Provision {
    /// Whether `d` is recorded as available.
    pub open spec fn has(self, d: Subdirectory) -> bool {
        match d {
            Subdirectory::Photos => self.photos,
            Subdirectory::Attachments => self.attachments,
            Subdirectory::Backups => self.backups,
            Subdirectory::Contracts => self.contracts,
        }
    }

    /// This report with the entry of `d` set to `ok`.
    pub open spec fn with(self, d: Subdirectory, ok: bool) -> Provision {
        match d {
            Subdirectory::Photos => Provision { photos: ok, ..self },
            Subdirectory::Attachments => Provision { attachments: ok, ..self },
            Subdirectory::Backups => Provision { backups: ok, ..self },
            Subdirectory::Contracts => Provision { contracts: ok, ..self },
        }
    }

    /// A report with nothing recorded as available.
    pub open spec fn none_available() -> Provision {
        Provision { photos: false, attachments: false, backups: false, contracts: false }
    }

    /// A report with nothing recorded as available.
    pub fn empty() -> (r: Provision)
        ensures
            r == Provision::none_available(),
            forall|d: Subdirectory| !(#[trigger] r.has(d)),
    {
        Provision { photos: false, attachments: false, backups: false, contracts: false }
    }

    /// Whether `d` is recorded as available.
    pub fn available(&self, d: Subdirectory) -> (r: bool)
        ensures
            r == self.has(d),
    {
        match d {
            Subdirectory::Photos => self.photos,
            Subdirectory::Attachments => self.attachments,
            Subdirectory::Backups => self.backups,
            Subdirectory::Contracts => self.contracts,
        }
    }

    /// Records whether `d` is available.
    pub fn record(&mut self, d: Subdirectory, ok: bool)
        ensures
            *final(self) == old(self).with(d, ok),
            final(self).has(d) == ok,
            forall|e: Subdirectory| e != d ==> final(self).has(e) == old(self).has(e),
    {
        match d {
            Subdirectory::Photos => self.photos = ok,
            Subdirectory::Attachments => self.attachments = ok,
            Subdirectory::Backups => self.backups = ok,
            Subdirectory::Contracts => self.contracts = ok,
        }
    }
}

} // verus!
