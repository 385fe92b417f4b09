use vstd::prelude::*;

verus! {

/// An address-record type managed by this tool.
#[derive(Clone, Copy, Debug, PartialEq, Eq, Structural)]
pub enum RecordKind {
    /// An IPv4 address record.
    A,
    /// An IPv6 address record.
    Aaaa,
}

/// The provider's name of a record type.
pub open spec fn kind_text(k: RecordKind) -> Seq<char> {
    match k {
        RecordKind::A => seq!['A'],
        RecordKind::Aaaa => seq!['A', 'A', 'A', 'A'],
    }
}

impl RecordKind {
    /// The provider's name for this record type.
    pub fn as_str(&self) -> (r: &'static str)
        ensures
            r@ == kind_text(*self),
    {
        match self {
            RecordKind::A => {
                proof {
                    reveal_strlit("A");
                }
                "A"
            },
            RecordKind::Aaaa => {
                proof {
                    reveal_strlit("AAAA");
                }
                "AAAA"
            },
        }
    }

    /// The provider's name for this record type, as an owned string.
    pub fn to_text(&self) -> (r: String)
        ensures
            r@ == kind_text(*self),
    {
        self.as_str().to_string()
    }
}

/// A DNS record as the provider reports it.
#[derive(Debug)]
pub struct DomainRecord {
    pub id: i64,
    pub name: String,
    pub data: String,
    pub ttl: i32,
    pub kind: String,
}

/// The state that one record should have on the provider.
#[derive(Debug)]
pub struct DesiredRecord {
    pub kind: RecordKind,
    /// The subdomain label; `@` stands for the domain itself.
    pub name: String,
    /// The address, as text.
    pub data: String,
    /// Time to live, in seconds.
    pub ttl: u32,
}

/// A remote record is about the same name and record type as the desired one.
pub open spec fn record_matches(r: DomainRecord, d: DesiredRecord) -> bool {
    r.name@ == d.name@ && r.kind@ == kind_text(d.kind)
}

/// The remote records, in order, that share the desired record's name and type.
pub open spec fn matching(remote: Seq<DomainRecord>, d: DesiredRecord) -> Seq<DomainRecord>
    decreases remote.len(),
{
    if remote.len() == 0 {
        Seq::empty()
    } else {
        let rest = matching(remote.drop_last(), d);
        if record_matches(remote.last(), d) {
            rest.push(remote.last())
        } else {
            rest
        }
    }
}

impl DomainRecord {
    /// Whether this remote record has the desired record's name and type.
    pub fn matches(&self, desired: &DesiredRecord) -> (r: bool)
        ensures
            r == record_matches(*self, *desired),
    {
        let kind = desired.kind.to_text();
        self.name == desired.name && self.kind == kind
    }
}

} // verus!
