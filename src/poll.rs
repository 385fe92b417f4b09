use vstd::prelude::*;

use crate::record::{DesiredRecord, RecordKind};

verus! {

/// An address family.
#[derive(Clone, Copy, Debug, PartialEq, Eq, Structural)]
pub enum Family {
    Ipv4,
    Ipv6,
}

/// The record type that holds addresses of a family.
pub open spec fn family_kind(f: Family) -> RecordKind {
    match f {
        Family::Ipv4 => RecordKind::A,
        Family::Ipv6 => RecordKind::Aaaa,
    }
}

impl Family {
    /// The record type that holds addresses of this family.
    pub fn kind(&self) -> (r: RecordKind)
        ensures
            r == family_kind(*self),
    {
        match self {
            Family::Ipv4 => RecordKind::A,
            Family::Ipv6 => RecordKind::Aaaa,
        }
    }
}

/// The text of an optional address.
pub open spec fn address_view(a: Option<String>) -> Option<Seq<char>> {
    match a {
        Some(s) => Some(s@),
        None => None,
    }
}

/// Whether two optional addresses are the same.
pub fn same_address(a: &Option<String>, b: &Option<String>) -> (r: bool)
    ensures
        r == (address_view(*a) == address_view(*b)),
{
    match (a, b) {
        (Some(x), Some(y)) => *x == *y,
        (None, None) => true,
        _ => false,
    }
}

/// One address per family, each possibly unknown.
#[derive(Debug)]
pub struct Addresses {
    pub ipv4: Option<String>,
    pub ipv6: Option<String>,
}

/// The address that a pair holds for a family.
pub open spec fn address_of(a: Addresses, f: Family) -> Option<Seq<char>> {
    match f {
        Family::Ipv4 => address_view(a.ipv4),
        Family::Ipv6 => address_view(a.ipv6),
    }
}

impl Addresses {
    /// No address known for either family.
    pub fn new() -> (r: Addresses)
        ensures
            address_of(r, Family::Ipv4) is None,
            address_of(r, Family::Ipv6) is None,
    {
        Addresses { ipv4: None, ipv6: None }
    }

    /// The address held for a family.
    pub fn get(&self, f: Family) -> (r: &Option<String>)
        ensures
            address_view(*r) == address_of(*self, f),
    {
        match f {
            Family::Ipv4 => &self.ipv4,
            Family::Ipv6 => &self.ipv6,
        }
    }

    /// Remembers an address for a family; the other family keeps its own.
    pub fn set(&mut self, f: Family, address: String)
        ensures
            address_of(*final(self), f) == Some(address@),
            forall|g: Family| g != f ==> address_of(*final(self), g) == address_of(*old(self), g),
    {
        match f {
            Family::Ipv4 => self.ipv4 = Some(address),
            Family::Ipv6 => self.ipv6 = Some(address),
        }
    }
}

/// What a poll cycle does for one address family.
#[derive(Clone, Copy, Debug, PartialEq, Eq, Structural)]
pub enum FamilyStep {
    /// The operator did not enable this family.
    Disabled,
    /// The discovered address is the one applied last: nothing to do.
    Unchanged,
    /// No address was discovered: warn, and keep the last one.
    Missing,
    /// A new address was discovered: reconcile its record.
    Reconcile,
}

/// The step for a family, from whether it is enabled, the address applied last
/// and the address just discovered.
pub open spec fn step_for(enabled: bool, last: Option<Seq<char>>, found: Option<Seq<char>>) -> FamilyStep {
    if !enabled {
        FamilyStep::Disabled
    } else if found == last {
        FamilyStep::Unchanged
    } else if found is None {
        FamilyStep::Missing
    } else {
        FamilyStep::Reconcile
    }
}

/// Decides what this cycle does for one family.
pub fn family_step(enabled: bool, last: &Option<String>, found: &Option<String>) -> (r: FamilyStep)
    ensures
        r == step_for(enabled, address_view(*last), address_view(*found)),
{
    if !enabled {
        FamilyStep::Disabled
    } else if same_address(found, last) {
        FamilyStep::Unchanged
    } else if found.is_none() {
        FamilyStep::Missing
    } else {
        FamilyStep::Reconcile
    }
}

/// Once a reconciliation for a family has succeeded and its address has been
/// remembered, a later cycle that discovers the same address makes no
/// reconciliation call for that family.
pub proof fn lemma_unchanged_address_not_reconciled(
    before: Addresses,
    after: Addresses,
    f: Family,
    address: Seq<char>,
)
    requires
        step_for(true, address_of(before, f), Some(address)) == FamilyStep::Reconcile,
        address_of(after, f) == Some(address),
    ensures
        step_for(true, address_of(after, f), Some(address)) == FamilyStep::Unchanged,
{
}

/// What the operator configured.
#[derive(Debug)]
pub struct Config {
    pub ipv4: bool,
    pub ipv6: bool,
    pub dry_run: bool,
    pub once: bool,
    /// Seconds between cycles.
    pub interval: u64,
    /// Time to live of the records, in seconds.
    pub ttl: u32,
    /// The subdomain label; `@` stands for the domain itself.
    pub subdomain: String,
    pub domain: String,
}

/// A configuration that the tool refuses to start with.
#[derive(Clone, Copy, Debug, PartialEq, Eq, Structural)]
pub enum ConfigError {
    NoFamily,
    ZeroTtl,
    ZeroInterval,
}

/// Whether a family is enabled in a configuration.
pub open spec fn family_enabled(c: Config, f: Family) -> bool {
    match f {
        Family::Ipv4 => c.ipv4,
        Family::Ipv6 => c.ipv6,
    }
}

impl Config {
    /// Checks the configuration before the first cycle: at least one family,
    /// and a positive time to live and interval, in that order.
    pub fn validate(&self) -> (r: Result<(), ConfigError>)
        ensures
            !self.ipv4 && !self.ipv6 <==> r == Err::<(), ConfigError>(ConfigError::NoFamily),
            (self.ipv4 || self.ipv6) && self.ttl == 0 <==> r == Err::<(), ConfigError>(
                ConfigError::ZeroTtl,
            ),
            (self.ipv4 || self.ipv6) && self.ttl > 0 && self.interval == 0 <==> r == Err::<
                (),
                ConfigError,
            >(ConfigError::ZeroInterval),
            r is Ok <==> (self.ipv4 || self.ipv6) && self.ttl > 0 && self.interval > 0,
    {
        if !self.ipv4 && !self.ipv6 {
            Err(ConfigError::NoFamily)
        } else if self.ttl == 0 {
            Err(ConfigError::ZeroTtl)
        } else if self.interval == 0 {
            Err(ConfigError::ZeroInterval)
        } else {
            Ok(())
        }
    }

    /// Whether a family is enabled.
    pub fn enabled(&self, f: Family) -> (r: bool)
        ensures
            r == family_enabled(*self, f),
    {
        match f {
            Family::Ipv4 => self.ipv4,
            Family::Ipv6 => self.ipv6,
        }
    }

    /// Decides what this cycle does for a family, from the addresses applied
    /// last and those just discovered.
    pub fn step(&self, f: Family, last: &Addresses, found: &Addresses) -> (r: FamilyStep)
        ensures
            r == step_for(family_enabled(*self, f), address_of(*last, f), address_of(*found, f)),
    {
        family_step(self.enabled(f), last.get(f), found.get(f))
    }

    /// The record that should hold a newly discovered address of a family.
    pub fn desired_record(&self, f: Family, address: String) -> (r: DesiredRecord)
        ensures
            r.kind == family_kind(f),
            r.name@ == self.subdomain@,
            r.data@ == address@,
            r.ttl == self.ttl,
    {
        DesiredRecord { kind: f.kind(), name: self.subdomain.clone(), data: address, ttl: self.ttl }
    }
}

} // verus!
