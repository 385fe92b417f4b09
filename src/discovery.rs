use vstd::prelude::*;

use crate::poll::{address_of, address_view, Addresses, Family};

verus! {

/// One request for the public address of a family, to one echo service.
#[derive(Clone, Copy, Debug, PartialEq, Eq, Structural)]
pub struct Request {
    /// The service's place in the ordered list of services.
    pub provider: usize,
    pub family: Family,
}

/// A scan over an ordered list of address echo services. Each service is
/// asked for an IPv4 address, then for an IPv6 address, as long as the family
/// is wanted and its address still unknown; the first answer for a family
/// holds.
#[derive(Debug)]
pub struct DiscoveryScan {
    pub want_ipv4: bool,
    pub want_ipv6: bool,
    pub found: Addresses,
    /// The next slot to consider: slot `2 * p` asks service `p` for IPv4,
    /// slot `2 * p + 1` asks it for IPv6.
    pub position: usize,
    pub providers: usize,
}

/// The family that a slot asks for.
pub open spec fn slot_family(slot: int) -> Family {
    if slot % 2 == 0 {
        Family::Ipv4
    } else {
        Family::Ipv6
    }
}

/// The slot of a request.
pub open spec fn request_slot(r: Request) -> int {
    2 * r.provider + if r.family == Family::Ipv4 {
        0int
    } else {
        1int
    }
}

impl DiscoveryScan {
    pub open spec fn wf(&self) -> bool {
        self.position <= 2 * self.providers && 2 * self.providers <= usize::MAX
    }

    pub open spec fn wants(&self, f: Family) -> bool {
        match f {
            Family::Ipv4 => self.want_ipv4,
            Family::Ipv6 => self.want_ipv6,
        }
    }

    /// A slot that a request would be made for: the family is wanted and its
    /// address not yet known.
    pub open spec fn pending(&self, slot: int) -> bool {
        0 <= slot < 2 * self.providers && self.wants(slot_family(slot)) && address_of(
            self.found,
            slot_family(slot),
        ) is None
    }

    /// Starts a scan over `providers` services for the wanted families.
    pub fn new(want_ipv4: bool, want_ipv6: bool, providers: usize) -> (r: DiscoveryScan)
        requires
            2 * providers <= usize::MAX,
        ensures
            r.wf(),
            r.want_ipv4 == want_ipv4,
            r.want_ipv6 == want_ipv6,
            r.providers == providers,
            r.position == 0,
            address_of(r.found, Family::Ipv4) is None,
            address_of(r.found, Family::Ipv6) is None,
    {
        DiscoveryScan { want_ipv4, want_ipv6, found: Addresses::new(), position: 0, providers }
    }

    fn wants_exec(&self, f: Family) -> (r: bool)
        ensures
            r == self.wants(f),
    {
        match f {
            Family::Ipv4 => self.want_ipv4,
            Family::Ipv6 => self.want_ipv6,
        }
    }

    /// The next request to make, in order, or `None` once every wanted family
    /// is known or every service has been asked.
    pub fn next_request(&mut self) -> (r: Option<Request>)
        requires
            old(self).wf(),
        ensures
            final(self).wf(),
            final(self).want_ipv4 == old(self).want_ipv4,
            final(self).want_ipv6 == old(self).want_ipv6,
            final(self).providers == old(self).providers,
            final(self).found == old(self).found,
            r is None <==> forall|s: int|
                old(self).position <= s ==> !#[trigger] old(self).pending(s),
            r is Some ==> {
                let s = request_slot(r->0);
                &&& old(self).position <= s
                &&& old(self).pending(s)
                &&& forall|t: int| old(self).position <= t < s ==> !#[trigger] old(self).pending(t)
                &&& final(self).position == s + 1
            },
    {
        let end = 2 * self.providers;
        while self.position < end
            invariant
                self.wf(),
                end == 2 * self.providers,
                self.want_ipv4 == old(self).want_ipv4,
                self.want_ipv6 == old(self).want_ipv6,
                self.providers == old(self).providers,
                self.found == old(self).found,
                old(self).position <= self.position,
                forall|t: int| old(self).position <= t < self.position ==> !#[trigger] old(self).pending(t),
            decreases end - self.position,
        {
            let slot = self.position;
            let family = if slot % 2 == 0 {
                Family::Ipv4
            } else {
                Family::Ipv6
            };
            self.position = slot + 1;
            if self.wants_exec(family) && self.found.get(family).is_none() {
                let r = Request { provider: slot / 2, family };
                assert(request_slot(r) == slot);
                assert(old(self).pending(slot as int));
                return Some(r);
            }
        }
        None
    }

    /// Takes in the answer to a request for a family: an address if the
    /// service gave one, else `None`.
    pub fn record(&mut self, f: Family, answer: Option<String>)
        requires
            old(self).wf(),
        ensures
            final(self).wf(),
            final(self).want_ipv4 == old(self).want_ipv4,
            final(self).want_ipv6 == old(self).want_ipv6,
            final(self).providers == old(self).providers,
            final(self).position == old(self).position,
            answer is Some ==> address_of(final(self).found, f) == address_view(answer),
            answer is None ==> address_of(final(self).found, f) == address_of(old(self).found, f),
            forall|g: Family| g != f ==> address_of(final(self).found, g) == address_of(old(self).found, g),
    {
        if let Some(address) = answer {
            self.found.set(f, address);
        }
    }

    /// The addresses found, ending the scan.
    pub fn finish(self) -> (r: Addresses)
        ensures
            r == self.found,
    {
        self.found
    }
}

} // verus!
