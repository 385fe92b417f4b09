use vstd::prelude::*;

use crate::record::{kind_text, matching, record_matches, DesiredRecord, DomainRecord, RecordKind};

verus! {

/// What a reconciliation decided to do about one record.
#[derive(Clone, Copy, Debug, PartialEq, Eq, Structural)]
pub enum Plan {
    /// The only matching record already holds the desired address.
    Skip,
    /// No record matches: create one.
    Create,
    /// Exactly one record matches and holds another address: update it.
    Update { id: i64 },
}

/// How a reconciliation ended, as reported to the operator.
#[derive(Clone, Copy, Debug, PartialEq, Eq, Structural)]
pub enum Action {
    Skip,
    Created,
    Updated,
}

/// More than one remote record has the desired name and type.
#[derive(Debug)]
pub struct AmbiguousRecords {
    pub kind: RecordKind,
    pub name: String,
    /// How many remote records matched.
    pub count: usize,
}

/// The write that carries a plan out on the provider.
#[derive(Debug)]
pub enum WriteRequest {
    Create { record: DesiredRecord },
    Update { id: i64, record: DesiredRecord },
}

/// The plan for a desired record against the provider's records; `None` when
/// more than one record matches.
pub open spec fn planned(d: DesiredRecord, remote: Seq<DomainRecord>) -> Option<Plan> {
    let m = matching(remote, d);
    if m.len() == 0 {
        Some(Plan::Create)
    } else if m.len() == 1 {
        if m[0].data@ == d.data@ {
            Some(Plan::Skip)
        } else {
            Some(Plan::Update { id: m[0].id })
        }
    } else {
        None
    }
}

/// The action that a plan reports, whether or not its write is performed.
pub open spec fn plan_action(p: Plan) -> Action {
    match p {
        Plan::Skip => Action::Skip,
        Plan::Create => Action::Created,
        Plan::Update { .. } => Action::Updated,
    }
}

/// The write that a plan sends to the provider; none in a dry run.
pub open spec fn planned_write(p: Plan, d: DesiredRecord, dry_run: bool) -> Option<WriteRequest> {
    if dry_run {
        None
    } else {
        match p {
            Plan::Skip => None,
            Plan::Create => Some(WriteRequest::Create { record: d }),
            Plan::Update { id } => Some(WriteRequest::Update { id, record: d }),
        }
    }
}

/// When exactly one remote record matches and already holds the desired
/// address, the plan is to skip, and no write is sent, dry run or not.
pub proof fn lemma_single_equal_skips(d: DesiredRecord, remote: Seq<DomainRecord>, dry_run: bool)
    requires
        matching(remote, d).len() == 1,
        matching(remote, d)[0].data@ == d.data@,
    ensures
        planned(d, remote) == Some(Plan::Skip),
        plan_action(Plan::Skip) == Action::Skip,
        planned_write(Plan::Skip, d, dry_run) is None,
{
}

/// When no remote record matches, the plan is to create, and a live run sends
/// exactly one create request carrying the desired record.
pub proof fn lemma_none_creates(d: DesiredRecord, remote: Seq<DomainRecord>)
    requires
        matching(remote, d).len() == 0,
    ensures
        planned(d, remote) == Some(Plan::Create),
        plan_action(Plan::Create) == Action::Created,
        planned_write(Plan::Create, d, false) == Some(WriteRequest::Create { record: d }),
{
}

/// When exactly one remote record matches and holds another address, the plan
/// is to update that record by its id, and a live run sends exactly that update.
pub proof fn lemma_single_different_updates(d: DesiredRecord, remote: Seq<DomainRecord>)
    requires
        matching(remote, d).len() == 1,
        matching(remote, d)[0].data@ != d.data@,
    ensures
        planned(d, remote) == Some(Plan::Update { id: matching(remote, d)[0].id }),
        plan_action(Plan::Update { id: matching(remote, d)[0].id }) == Action::Updated,
        planned_write(Plan::Update { id: matching(remote, d)[0].id }, d, false) == Some(
            WriteRequest::Update { id: matching(remote, d)[0].id, record: d },
        ),
{
}

/// When two or more remote records match, there is no plan: reconciliation
/// fails and nothing is written.
pub proof fn lemma_several_fail(d: DesiredRecord, remote: Seq<DomainRecord>)
    requires
        matching(remote, d).len() >= 2,
    ensures
        planned(d, remote) is None,
{
}

/// A dry run writes nothing, and reports the same action as a live run.
pub proof fn lemma_dry_run_symmetric(d: DesiredRecord, remote: Seq<DomainRecord>)
    requires
        planned(d, remote) is Some,
    ensures
        planned_write(planned(d, remote)->0, d, true) is None,
        planned_write(planned(d, remote)->0, d, false) is Some <==> plan_action(
            planned(d, remote)->0,
        ) != Action::Skip,
{
}

proof fn lemma_matching_len(remote: Seq<DomainRecord>, d: DesiredRecord)
    ensures
        matching(remote, d).len() <= remote.len(),
    decreases remote.len(),
{
    if remote.len() > 0 {
        lemma_matching_len(remote.drop_last(), d);
    }
}

/// Decides what to do about a desired record, given the records that the
/// provider listed. Only records with exactly the desired name and type count.
pub fn plan_reconcile(desired: &DesiredRecord, remote: &Vec<DomainRecord>) -> (r: Result<
    Plan,
    AmbiguousRecords,
>)
    ensures
        r is Ok <==> planned(*desired, remote@) is Some,
        r is Ok ==> r->Ok_0 == planned(*desired, remote@)->0,
        r is Err ==> r->Err_0.kind == desired.kind && r->Err_0.name@ == desired.name@
            && r->Err_0.count == matching(remote@, *desired).len(),
{
    let mut count: usize = 0;
    let mut first: usize = 0;
    let mut i: usize = 0;
    while i < remote.len()
        invariant
            i <= remote@.len(),
            count == matching(remote@.take(i as int), *desired).len(),
            count > 0 ==> first < i && matching(remote@.take(i as int), *desired)[0]
                == remote@[first as int],
        decreases remote@.len() - i,
    {
        let ghost before = remote@.take(i as int);
        proof {
            assert(remote@.take(i + 1).drop_last() =~= before);
            lemma_matching_len(before, *desired);
        }
        if remote[i].matches(desired) {
            if count == 0 {
                first = i;
            }
            count = count + 1;
        }
        i = i + 1;
    }
    proof {
        assert(remote@.take(i as int) =~= remote@);
    }
    if count == 0 {
        Ok(Plan::Create)
    } else if count == 1 {
        let record = &remote[first];
        if record.data == desired.data {
            Ok(Plan::Skip)
        } else {
            Ok(Plan::Update { id: record.id })
        }
    } else {
        Err(AmbiguousRecords { kind: desired.kind, name: desired.name.clone(), count })
    }
}

impl Plan {
    /// The action this plan reports.
    pub fn action(&self) -> (r: Action)
        ensures
            r == plan_action(*self),
    {
        match self {
            Plan::Skip => Action::Skip,
            Plan::Create => Action::Created,
            Plan::Update { .. } => Action::Updated,
        }
    }

    /// The write that carries this plan out; in a dry run there is none.
    pub fn write_request(&self, desired: DesiredRecord, dry_run: bool) -> (r: Option<WriteRequest>)
        ensures
            r == planned_write(*self, desired, dry_run),
    {
        if dry_run {
            None
        } else {
            match self {
                Plan::Skip => None,
                Plan::Create => Some(WriteRequest::Create { record: desired }),
                Plan::Update { id } => Some(WriteRequest::Update { id: *id, record: desired }),
            }
        }
    }
}

} // verus!
