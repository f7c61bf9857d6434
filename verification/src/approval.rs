//! Plan approvals that wait for the user.
//!
//! A task that wants its plan approved leaves a ticket under its id, and waits.
//! The user's answer takes the ticket out and goes to whoever holds the other
//! end of it. A ticket can be anything: the registry never looks at it.

use vstd::prelude::*;
use vstd::string::*;

verus! {

/// The tickets of the tasks that wait for approval, at most one for each task.
pub struct PendingApprovals<T> {
    waiting: Vec<(String, T)>,
}

impl<T> View for PendingApprovals<T> {
    type V = Map<Seq<char>, T>;

    /// The ticket of each task that waits.
    closed spec fn view(&self) -> Map<Seq<char>, T> {
        tickets(self.waiting@)
    }
}

/// No two of the entries have the same task.
spec fn distinct<T>(waiting: Seq<(String, T)>) -> bool {
    forall|i: int, j: int|
        0 <= i < j < waiting.len() ==> (#[trigger] waiting[i]).0@ != (#[trigger] waiting[j]).0@
}

/// The ticket of each task among the entries.
spec fn tickets<T>(waiting: Seq<(String, T)>) -> Map<Seq<char>, T>
    decreases waiting.len(),
{
    if waiting.len() == 0 {
        Map::empty()
    } else {
        tickets(waiting.drop_last()).insert(waiting.last().0@, waiting.last().1)
    }
}

/// A task has a ticket exactly if an entry says so, and then it is the entry's.
proof fn lemma_tickets<T>(waiting: Seq<(String, T)>)
    requires
        distinct(waiting),
    ensures
        forall|i: int|
            0 <= i < waiting.len() ==> tickets(waiting).contains_key(
                (#[trigger] waiting[i]).0@,
            ) && tickets(waiting)[waiting[i].0@] == waiting[i].1,
        forall|k: Seq<char>| #[trigger]
            tickets(waiting).contains_key(k) ==> exists|i: int|
                0 <= i < waiting.len() && (#[trigger] waiting[i]).0@ == k,
    decreases waiting.len(),
{
    if waiting.len() > 0 {
        let rest = waiting.drop_last();
        lemma_tickets(rest);
        assert forall|i: int| 0 <= i < waiting.len() implies tickets(waiting).contains_key(
            (#[trigger] waiting[i]).0@,
        ) && tickets(waiting)[waiting[i].0@] == waiting[i].1 by {
            if i < rest.len() {
                assert(rest[i] == waiting[i]);
                assert(waiting[i].0@ != waiting[waiting.len() - 1].0@);
            }
        }
        assert forall|k: Seq<char>| #[trigger] tickets(waiting).contains_key(k) implies exists|
            i: int,
        |
            0 <= i < waiting.len() && (#[trigger] waiting[i]).0@ == k by {
            if k == waiting.last().0@ {
                assert(waiting[waiting.len() - 1].0@ == k);
            } else {
                assert(tickets(rest).contains_key(k));
                let i = choose|i: int| 0 <= i < rest.len() && (#[trigger] rest[i]).0@ == k;
                assert(waiting[i].0@ == k);
            }
        }
    }
}

/// Taking an entry out takes its task's ticket out, and no other.
proof fn lemma_remove<T>(waiting: Seq<(String, T)>, at: int)
    requires
        distinct(waiting),
        0 <= at < waiting.len(),
    ensures
        distinct(waiting.remove(at)),
        tickets(waiting.remove(at)) == tickets(waiting).remove(waiting[at].0@),
{
    let rest = waiting.remove(at);
    assert forall|i: int, j: int| 0 <= i < j < rest.len() implies (#[trigger] rest[i]).0@ != (
    #[trigger] rest[j]).0@ by {
        let a = if i < at {
            i
        } else {
            i + 1
        };
        let b = if j < at {
            j
        } else {
            j + 1
        };
        assert(rest[i] == waiting[a]);
        assert(rest[j] == waiting[b]);
    }
    lemma_tickets(waiting);
    lemma_tickets(rest);
    assert forall|k: Seq<char>| tickets(rest).contains_key(k) implies k != waiting[at].0@
        && tickets(waiting).contains_key(k) && tickets(rest)[k] == tickets(waiting)[k] by {
        let i = choose|i: int| 0 <= i < rest.len() && (#[trigger] rest[i]).0@ == k;
        let a = if i < at {
            i
        } else {
            i + 1
        };
        assert(rest[i] == waiting[a]);
    }
    assert forall|k: Seq<char>|
        tickets(waiting).contains_key(k) && k != waiting[at].0@ implies tickets(rest).contains_key(
        k,
    ) by {
        let a = choose|a: int| 0 <= a < waiting.len() && (#[trigger] waiting[a]).0@ == k;
        let i = if a < at {
            a
        } else {
            a - 1
        };
        assert(rest[i] == waiting[a]);
    }
    assert(tickets(rest) =~= tickets(waiting).remove(waiting[at].0@));
}

/// What is said when nobody waits for an answer.
pub open spec fn no_pending_error(run_id: Seq<char>) -> Seq<char> {
    "No pending Auto-mode approval for run_id="@ + run_id + " (already resolved or expired)"@
}

/// Nobody waits yet.
pub fn new_pending_map<T>() -> (res: PendingApprovals<T>)
    ensures
        res@ == Map::<Seq<char>, T>::empty(),
{
    PendingApprovals { waiting: Vec::new() }
}

impl<T> PendingApprovals<T> {
    #[verifier::type_invariant]
    spec fn one_ticket_each(&self) -> bool {
        distinct(self.waiting@)
    }

    /// Where the entry of a task is.
    fn position(&self, run_id: &str) -> (res: Option<usize>)
        ensures
            match res {
                Some(at) => at < self.waiting.len() && self.waiting@[at as int].0@ == run_id@,
                None => forall|i: int|
                    0 <= i < self.waiting.len() ==> (#[trigger] self.waiting@[i]).0@ != run_id@,
            },
    {
        let key = run_id.to_owned();
        let mut i: usize = 0;
        while i < self.waiting.len()
            invariant
                i <= self.waiting.len(),
                key@ == run_id@,
                forall|j: int| 0 <= j < i ==> (#[trigger] self.waiting@[j]).0@ != run_id@,
            decreases self.waiting.len() - i,
        {
            if self.waiting[i].0 == key {
                return Some(i);
            }
            i = i + 1;
        }
        None
    }

    /// Takes the ticket of a task out, if the task waits.
    pub fn take(&mut self, run_id: &str) -> (res: Option<T>)
        ensures
            match res {
                Some(ticket) => old(self)@.contains_key(run_id@) && ticket == old(self)@[run_id@],
                None => !old(self)@.contains_key(run_id@),
            },
            final(self)@ == resolved(old(self)@, run_id@),
    {
        proof {
            use_type_invariant(&*self);
            lemma_tickets(self.waiting@);
        }
        match self.position(run_id) {
            Some(at) => {
                proof {
                    lemma_remove(self.waiting@, at as int);
                }
                let mut waiting: Vec<(String, T)> = Vec::new();
                std::mem::swap(&mut waiting, &mut self.waiting);
                let (_, ticket) = waiting.remove(at);
                self.waiting = waiting;
                Some(ticket)
            },
            None => {
                assert(!self@.contains_key(run_id@));
                assert(self@.remove(run_id@) =~= self@);
                None
            },
        }
    }

    /// Leaves a ticket for a task that begins to wait. An earlier ticket of the
    /// same task is given back.
    pub fn register(&mut self, run_id: String, ticket: T) -> (res: Option<T>)
        ensures
            final(self)@ == registered(old(self)@, run_id@, ticket),
            match res {
                Some(earlier) => old(self)@.contains_key(run_id@) && earlier == old(
                    self,
                )@[run_id@],
                None => !old(self)@.contains_key(run_id@),
            },
    {
        let earlier = self.take(run_id.as_str());
        proof {
            use_type_invariant(&*self);
            lemma_tickets(self.waiting@);
            let waiting = self.waiting@.push((run_id, ticket));
            assert(waiting.drop_last() =~= self.waiting@);
            assert forall|i: int, j: int| 0 <= i < j < waiting.len() implies (
            #[trigger] waiting[i]).0@ != (#[trigger] waiting[j]).0@ by {
                assert(waiting[i] == self.waiting@[i]);
            }
            assert(old(self)@.remove(run_id@).insert(run_id@, ticket) =~= old(self)@.insert(
                run_id@,
                ticket,
            ));
        }
        let mut waiting: Vec<(String, T)> = Vec::new();
        std::mem::swap(&mut waiting, &mut self.waiting);
        waiting.push((run_id, ticket));
        self.waiting = waiting;
        earlier
    }
}

/// An answer on its way: what the user said, and the ticket of the task that
/// waits for it.
#[derive(Debug)]
pub struct Answer<T> {
    pub ticket: T,
    pub approved: bool,
}

/// Takes out the ticket of the task that the user answered, and puts the answer
/// on it, so that it can go to whoever waits. It is an error if nobody does.
pub fn agent_approve_auto_plan<T>(
    pending: &mut PendingApprovals<T>,
    run_id: &str,
    approved: bool,
) -> (res: Result<Answer<T>, String>)
    ensures
        match res {
            Ok(answer) => old(pending)@.contains_key(run_id@) && answer == (Answer {
                ticket: old(pending)@[run_id@],
                approved,
            }),
            Err(e) => !old(pending)@.contains_key(run_id@) && e@ == no_pending_error(run_id@),
        },
        final(pending)@ == resolved(old(pending)@, run_id@),
{
    match pending.take(run_id) {
        Some(ticket) => Ok(Answer { ticket, approved }),
        None => {
            let mut e = "No pending Auto-mode approval for run_id=".to_owned();
            e.append(run_id);
            e.append(" (already resolved or expired)");
            Err(e)
        },
    }
}

/// What the wait for an answer comes to: the answer, or a denial if the ticket
/// was dropped before there was one.
pub open spec fn outcome_of_wait(received: Option<bool>) -> bool {
    match received {
        Some(approved) => approved,
        None => false,
    }
}

/// What the wait for an answer comes to. If the ticket is dropped before there
/// is an answer, the plan is not approved.
pub fn answer_or_denial(received: Option<bool>) -> (res: bool)
    ensures
        res == outcome_of_wait(received),
{
    match received {
        Some(approved) => approved,
        None => false,
    }
}

/// The registry when a task has left a ticket.
pub open spec fn registered<T>(pending: Map<Seq<char>, T>, run_id: Seq<char>, ticket: T) -> Map<
    Seq<char>,
    T,
> {
    pending.insert(run_id, ticket)
}

/// The registry when a task has been answered, or is over.
pub open spec fn resolved<T>(pending: Map<Seq<char>, T>, run_id: Seq<char>) -> Map<Seq<char>, T> {
    pending.remove(run_id)
}

/// An answer reaches the task that it is for, on the ticket that the task left
/// last, and no other task. A second answer to the same task finds nobody.
pub proof fn law_answer_reaches_the_task_that_waits<T>(
    pending: Map<Seq<char>, T>,
    run_id: Seq<char>,
    ticket: T,
    other: Seq<char>,
)
    requires
        other != run_id,
    ensures
        registered(pending, run_id, ticket).contains_key(run_id),
        registered(pending, run_id, ticket)[run_id] == ticket,
        registered(pending, run_id, ticket).contains_key(other) == pending.contains_key(other),
        pending.contains_key(other) ==> registered(pending, run_id, ticket)[other]
            == pending[other],
        !resolved(pending, run_id).contains_key(run_id),
        resolved(pending, run_id).contains_key(other) == pending.contains_key(other),
        pending.contains_key(other) ==> resolved(pending, run_id)[other] == pending[other],
{
}

/// Something that happens to the registry.
pub enum RegistryChange<T> {
    /// A task leaves a ticket.
    Registered { run_id: Seq<char>, ticket: T },
    /// A task is answered, or is over.
    Resolved { run_id: Seq<char> },
}

impl<T> RegistryChange<T> {
    /// The task that the change is about.
    pub open spec fn task(self) -> Seq<char> {
        match self {
            RegistryChange::Registered { run_id, .. } => run_id,
            RegistryChange::Resolved { run_id } => run_id,
        }
    }
}

/// The registry after a row of changes.
pub open spec fn after_changes<T>(
    pending: Map<Seq<char>, T>,
    changes: Seq<RegistryChange<T>>,
) -> Map<Seq<char>, T>
    decreases changes.len(),
{
    if changes.len() == 0 {
        pending
    } else {
        let earlier = after_changes(pending, changes.drop_last());
        match changes.last() {
            RegistryChange::Registered { run_id, ticket } => registered(earlier, run_id, ticket),
            RegistryChange::Resolved { run_id } => resolved(earlier, run_id),
        }
    }
}

/// What happens to other tasks does not touch a task's ticket.
proof fn lemma_ticket_stays<T>(
    pending: Map<Seq<char>, T>,
    changes: Seq<RegistryChange<T>>,
    run_id: Seq<char>,
)
    requires
        forall|i: int| 0 <= i < changes.len() ==> (#[trigger] changes[i]).task() != run_id,
    ensures
        after_changes(pending, changes).contains_key(run_id) == pending.contains_key(run_id),
        pending.contains_key(run_id) ==> after_changes(pending, changes)[run_id]
            == pending[run_id],
    decreases changes.len(),
{
    if changes.len() > 0 {
        assert(changes[changes.len() - 1].task() != run_id);
        lemma_ticket_stays(pending, changes.drop_last(), run_id);
    }
}

/// A task that waits gets the user's word, whatever its plan is and whatever
/// happens to other tasks meanwhile. When it begins to wait, its ticket is in the
/// registry and the other tasks' tickets are as they were. The answer to it puts
/// the user's word on that very ticket, and the task is then no longer in the
/// registry. What it makes of the word, once received, is that word.
pub proof fn law_wait_comes_to_the_answer<T>(
    pending: Map<Seq<char>, T>,
    run_id: Seq<char>,
    ticket: T,
    meanwhile: Seq<RegistryChange<T>>,
    answer: Answer<T>,
    approved: bool,
)
    requires
        forall|i: int| 0 <= i < meanwhile.len() ==> (#[trigger] meanwhile[i]).task() != run_id,
        answer == (Answer {
            ticket: after_changes(registered(pending, run_id, ticket), meanwhile)[run_id],
            approved,
        }),
    ensures
        registered(pending, run_id, ticket)[run_id] == ticket,
        registered(pending, run_id, ticket).remove(run_id) == pending.remove(run_id),
        after_changes(registered(pending, run_id, ticket), meanwhile).contains_key(run_id),
        answer.ticket == ticket,
        outcome_of_wait(Some(answer.approved)) == approved,
        !resolved(
            after_changes(registered(pending, run_id, ticket), meanwhile),
            run_id,
        ).contains_key(run_id),
{
    assert(registered(pending, run_id, ticket).remove(run_id) =~= pending.remove(run_id));
    lemma_ticket_stays(registered(pending, run_id, ticket), meanwhile, run_id);
}

/// An answer that finds nobody names the whole id that it was for. A wait that
/// ends without an answer is a denial, and one that ends with one is that answer.
pub proof fn law_nobody_waits(run_id: Seq<char>, approved: bool)
    ensures
        no_pending_error(run_id) == "No pending Auto-mode approval for run_id="@ + run_id
            + " (already resolved or expired)"@,
        outcome_of_wait(None) == false,
        outcome_of_wait(Some(approved)) == approved,
{
}

} // verus!
