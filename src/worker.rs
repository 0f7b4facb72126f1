//! The worker orchestrator: a long-lived task that owns at most one
//! conversion job at a time.
//!
//! The orchestrator is written as a transition function. Whoever runs it
//! waits for the next stimulus (the first activation, an input from the
//! controller, a message from the job, the job's message channel closing),
//! hands it to [`Orchestrator::step`] and performs the actions that come back,
//! in order.

use crate::job::{Command, JobSpec, Message};
use vstd::prelude::*;

verus! {

/// What the controller sends to the orchestrator.
#[derive(Debug)]
pub enum Input {
    /// A command for the running job.
    Command(Command),
    /// A request to start a job.
    NewTask(JobSpec),
}

/// What the orchestrator sends to the controller, apart from the one-time
/// publication of its input queue.
#[derive(Clone, Debug)]
pub enum Event {
    /// A message of the running job, relayed as it came.
    Message(Message),
    /// A command that arrived while no job was running.
    CommandRefused(Command),
    /// A job request that arrived while another job was running.
    TaskRefused(JobSpec),
}

/// The orchestrator's state.
#[derive(Clone, Copy, Debug, PartialEq, Eq, Structural)]
pub enum State {
    /// The input queue does not exist yet.
    Starting,
    /// The input queue exists and no job runs.
    Idle,
    /// One job runs.
    Running,
}

/// Something that the orchestrator reacts to.
#[derive(Debug)]
pub enum Stimulus {
    /// The orchestrator's task has been started.
    Activate,
    /// The controller sent an input.
    Input(Input),
    /// The running job sent a message.
    JobMessage(Message),
    /// The running job's message channel closed.
    JobClosed,
}

/// Something that the orchestrator asks its runner to do.
#[derive(Debug)]
pub enum Action {
    /// Create the input queue and hand its sending half to the controller.
    PublishReady,
    /// Send an event to the controller.
    Emit(Event),
    /// Pass a command to the running job.
    Forward(Command),
    /// Start a job and keep its two channel ends.
    StartJob(JobSpec),
    /// Drop the two channel ends of the job that has ended.
    ReleaseJob,
}

/// The state that follows `st` on stimulus `s`, and the actions taken, in order.
pub open spec fn transition(st: State, s: Stimulus) -> (State, Seq<Action>) {
    match s {
        Stimulus::Activate => match st {
            State::Starting => (State::Idle, seq![Action::PublishReady]),
            _ => (st, seq![]),
        },
        Stimulus::Input(Input::Command(c)) => match st {
            State::Running => (st, seq![Action::Forward(c)]),
            _ => (st, seq![Action::Emit(Event::CommandRefused(c))]),
        },
        Stimulus::Input(Input::NewTask(spec)) => match st {
            State::Idle => (State::Running, seq![Action::StartJob(spec)]),
            _ => (st, seq![Action::Emit(Event::TaskRefused(spec))]),
        },
        Stimulus::JobMessage(m) => match st {
            State::Running => if m is Done {
                (State::Idle, seq![Action::Emit(Event::Message(m)), Action::ReleaseJob])
            } else {
                (st, seq![Action::Emit(Event::Message(m))])
            },
            _ => (st, seq![]),
        },
        Stimulus::JobClosed => match st {
            State::Running => (State::Idle, seq![Action::ReleaseJob]),
            _ => (st, seq![]),
        },
    }
}

/// The state reached from `st` after the stimuli `ss`, and all the actions
/// taken on the way, in order.
pub open spec fn run(st: State, ss: Seq<Stimulus>) -> (State, Seq<Action>)
    decreases ss.len(),
{
    if ss.len() == 0 {
        (st, seq![])
    } else {
        let (next, acts) = transition(st, ss[0]);
        let (last, rest) = run(next, ss.drop_first());
        (last, acts + rest)
    }
}

/// The job request carried by a stimulus, where it carries one.
pub open spec fn task_of(s: Stimulus) -> JobSpec {
    match s {
        Stimulus::Input(Input::NewTask(spec)) => spec,
        _ => arbitrary(),
    }
}

/// The command carried by a stimulus, where it carries one.
pub open spec fn command_of(s: Stimulus) -> Command {
    match s {
        Stimulus::Input(Input::Command(c)) => c,
        _ => arbitrary(),
    }
}

pub open spec fn is_new_task(s: Stimulus) -> bool {
    s matches Stimulus::Input(Input::NewTask(_))
}

pub open spec fn is_command(s: Stimulus) -> bool {
    s matches Stimulus::Input(Input::Command(_))
}

/// The messages that the actions `acts` relay to the controller, in order.
pub open spec fn relayed(acts: Seq<Action>) -> Seq<Message>
    decreases acts.len(),
{
    if acts.len() == 0 {
        seq![]
    } else {
        match acts[0] {
            Action::Emit(Event::Message(m)) => seq![m] + relayed(acts.drop_first()),
            _ => relayed(acts.drop_first()),
        }
    }
}

/// The job messages among the stimuli `ss`, in order.
pub open spec fn job_messages(ss: Seq<Stimulus>) -> Seq<Message>
    decreases ss.len(),
{
    if ss.len() == 0 {
        seq![]
    } else {
        match ss[0] {
            Stimulus::JobMessage(m) => seq![m] + job_messages(ss.drop_first()),
            _ => job_messages(ss.drop_first()),
        }
    }
}

/// The messages `ms` up to and including the first `Done`; all of them
/// where there is none.
pub open spec fn through_done(ms: Seq<Message>) -> Seq<Message>
    decreases ms.len(),
{
    if ms.len() == 0 {
        seq![]
    } else if ms[0] is Done {
        seq![ms[0]]
    } else {
        seq![ms[0]] + through_done(ms.drop_first())
    }
}

proof fn lemma_relayed_append(a: Seq<Action>, b: Seq<Action>)
    ensures
        relayed(a + b) == relayed(a) + relayed(b),
    decreases a.len(),
{
    if a.len() == 0 {
        assert(a + b =~= b);
        assert(relayed(a) + relayed(b) =~= relayed(b));
    } else {
        assert((a + b).drop_first() =~= a.drop_first() + b);
        lemma_relayed_append(a.drop_first(), b);
        assert(relayed(a + b) =~= relayed(a) + relayed(b));
    }
}

proof fn lemma_run_first(st: State, s: Stimulus, ss: Seq<Stimulus>)
    ensures
        run(st, seq![s] + ss) == ({
            let (next, acts) = transition(st, s);
            let (last, rest) = run(next, ss);
            (last, acts + rest)
        }),
{
    let all = seq![s] + ss;
    assert(all[0] == s);
    assert(all.drop_first() =~= ss);
}

/// An idle orchestrator that receives neither a job request nor a closure
/// stays idle and relays no message.
proof fn lemma_idle_relays_nothing(ss: Seq<Stimulus>)
    requires
        forall|i: int| 0 <= i < ss.len() ==> !is_new_task(#[trigger] ss[i]),
    ensures
        run(State::Idle, ss).0 == State::Idle,
        relayed(run(State::Idle, ss).1) == Seq::<Message>::empty(),
    decreases ss.len(),
{
    if ss.len() > 0 {
        assert(!is_new_task(ss[0]));
        let (next, acts) = transition(State::Idle, ss[0]);
        assert(relayed(acts) =~= Seq::<Message>::empty()) by {
            reveal_with_fuel(relayed, 2);
        }
        assert forall|i: int| 0 <= i < ss.drop_first().len() implies !is_new_task(
            #[trigger] ss.drop_first()[i],
        ) by {
            assert(ss.drop_first()[i] == ss[i + 1]);
        }
        lemma_idle_relays_nothing(ss.drop_first());
        lemma_relayed_append(acts, run(next, ss.drop_first()).1);
    }
}

/// Once a job runs, every further job request is refused, one refusal for
/// each request, and the job keeps running.
pub proof fn lemma_running_refuses_tasks(ss: Seq<Stimulus>)
    requires
        forall|i: int| 0 <= i < ss.len() ==> is_new_task(#[trigger] ss[i]),
    ensures
        run(State::Running, ss) == (
            State::Running,
            ss.map_values(|s: Stimulus| Action::Emit(Event::TaskRefused(task_of(s)))),
        ),
    decreases ss.len(),
{
    let f = |s: Stimulus| Action::Emit(Event::TaskRefused(task_of(s)));
    if ss.len() == 0 {
        assert(ss.map_values(f) =~= seq![]);
    } else {
        assert(is_new_task(ss[0]));
        assert forall|i: int| 0 <= i < ss.drop_first().len() implies is_new_task(
            #[trigger] ss.drop_first()[i],
        ) by {
            assert(ss.drop_first()[i] == ss[i + 1]);
        }
        lemma_running_refuses_tasks(ss.drop_first());
        assert(ss.map_values(f) =~= seq![f(ss[0])] + ss.drop_first().map_values(f));
    }
}

/// Of a run of job requests that reaches an idle orchestrator, the first
/// starts a job and every one after it is refused.
pub proof fn lemma_only_first_task_starts(first: JobSpec, rest: Seq<Stimulus>)
    requires
        forall|i: int| 0 <= i < rest.len() ==> is_new_task(#[trigger] rest[i]),
    ensures
        run(State::Idle, seq![Stimulus::Input(Input::NewTask(first))] + rest) == (
            State::Running,
            seq![Action::StartJob(first)] + rest.map_values(
                |s: Stimulus| Action::Emit(Event::TaskRefused(task_of(s))),
            ),
        ),
{
    lemma_run_first(State::Idle, Stimulus::Input(Input::NewTask(first)), rest);
    lemma_running_refuses_tasks(rest);
}

/// An idle orchestrator refuses every command it receives, one refusal for
/// each, and stays idle.
pub proof fn lemma_idle_refuses_commands(ss: Seq<Stimulus>)
    requires
        forall|i: int| 0 <= i < ss.len() ==> is_command(#[trigger] ss[i]),
    ensures
        run(State::Idle, ss) == (
            State::Idle,
            ss.map_values(|s: Stimulus| Action::Emit(Event::CommandRefused(command_of(s)))),
        ),
    decreases ss.len(),
{
    let f = |s: Stimulus| Action::Emit(Event::CommandRefused(command_of(s)));
    if ss.len() == 0 {
        assert(ss.map_values(f) =~= seq![]);
    } else {
        assert(is_command(ss[0]));
        assert forall|i: int| 0 <= i < ss.drop_first().len() implies is_command(
            #[trigger] ss.drop_first()[i],
        ) by {
            assert(ss.drop_first()[i] == ss[i + 1]);
        }
        lemma_idle_refuses_commands(ss.drop_first());
        assert(ss.map_values(f) =~= seq![f(ss[0])] + ss.drop_first().map_values(f));
    }
}

/// Whatever a running job and the controller send, as long as no other job
/// is requested and the job's channel does not close, the orchestrator
/// relays the job's messages up to and including its first `Done`, and none
/// after it.
pub proof fn lemma_relays_through_done(ss: Seq<Stimulus>)
    requires
        forall|i: int|
            0 <= i < ss.len() ==> !is_new_task(#[trigger] ss[i]) && !(ss[i] is JobClosed),
    ensures
        relayed(run(State::Running, ss).1) == through_done(job_messages(ss)),
    decreases ss.len(),
{
    if ss.len() > 0 {
        let tail = ss.drop_first();
        assert forall|i: int| 0 <= i < tail.len() implies !is_new_task(#[trigger] tail[i])
            && !(tail[i] is JobClosed) by {
            assert(tail[i] == ss[i + 1]);
        }
        assert(!is_new_task(ss[0]) && !(ss[0] is JobClosed));
        let (next, acts) = transition(State::Running, ss[0]);
        lemma_relayed_append(acts, run(next, tail).1);
        reveal_with_fuel(relayed, 3);
        match ss[0] {
            Stimulus::JobMessage(m) => {
                if m is Done {
                    lemma_idle_relays_nothing(tail);
                    assert(relayed(acts) =~= seq![m]);
                    assert(through_done(job_messages(ss)) =~= seq![m]);
                } else {
                    lemma_relays_through_done(tail);
                    assert(relayed(acts) =~= seq![m]);
                    let jm = job_messages(ss);
                    assert(jm == seq![m] + job_messages(tail));
                    assert(jm[0] == m);
                    assert(jm.drop_first() =~= job_messages(tail));
                }
            },
            _ => {
                lemma_relays_through_done(tail);
                assert(relayed(acts) =~= Seq::<Message>::empty());
                assert(relayed(acts) + relayed(run(next, tail).1) =~= relayed(
                    run(next, tail).1,
                ));
            },
        }
    }
}

/// Of a job that ends with `Done`, exactly one `Done` is relayed, and it is
/// the last message relayed.
pub proof fn lemma_one_done_relayed(ss: Seq<Stimulus>)
    requires
        forall|i: int|
            0 <= i < ss.len() ==> !is_new_task(#[trigger] ss[i]) && !(ss[i] is JobClosed),
        exists|i: int| 0 <= i < job_messages(ss).len() && (#[trigger] job_messages(ss)[i]) is Done,
    ensures
        ({
            let r = relayed(run(State::Running, ss).1);
            &&& r.len() > 0
            &&& r.last() is Done
            &&& forall|i: int| 0 <= i < r.len() - 1 ==> !((#[trigger] r[i]) is Done)
        }),
{
    lemma_relays_through_done(ss);
    lemma_through_done_ends(job_messages(ss));
}

proof fn lemma_through_done_ends(ms: Seq<Message>)
    requires
        exists|i: int| 0 <= i < ms.len() && (#[trigger] ms[i]) is Done,
    ensures
        ({
            let r = through_done(ms);
            &&& r.len() > 0
            &&& r.last() is Done
            &&& forall|i: int| 0 <= i < r.len() - 1 ==> !((#[trigger] r[i]) is Done)
        }),
    decreases ms.len(),
{
    if !(ms[0] is Done) {
        let k = choose|i: int| 0 <= i < ms.len() && (#[trigger] ms[i]) is Done;
        assert(ms.drop_first()[k - 1] == ms[k]);
        lemma_through_done_ends(ms.drop_first());
        let r = through_done(ms);
        let t = through_done(ms.drop_first());
        assert(r =~= seq![ms[0]] + t);
        assert forall|i: int| 0 <= i < r.len() - 1 implies !((#[trigger] r[i]) is Done) by {
            if i > 0 {
                assert(r[i] == t[i - 1]);
            }
        }
    }
}

proof fn lemma_run_append(st: State, a: Seq<Stimulus>, b: Seq<Stimulus>)
    ensures
        run(st, a + b) == ({
            let (mid, first) = run(st, a);
            let (last, second) = run(mid, b);
            (last, first + second)
        }),
    decreases a.len(),
{
    if a.len() == 0 {
        assert(a + b =~= b);
        assert(Seq::<Action>::empty() + run(st, b).1 =~= run(st, b).1);
    } else {
        assert((a + b)[0] == a[0]);
        assert((a + b).drop_first() =~= a.drop_first() + b);
        let (next, acts) = transition(st, a[0]);
        lemma_run_append(next, a.drop_first(), b);
        let (mid, rest) = run(next, a.drop_first());
        let (last, second) = run(mid, b);
        assert(acts + (rest + second) =~= (acts + rest) + second);
    }
}

/// A job request that arrives while a job runs changes nothing but adding
/// its refusal: whatever came before it and whatever comes after, the run
/// ends in the same state as without it, and its actions are those of the
/// run without it, with the refusal where the request came.
pub proof fn lemma_refused_task_leaves_trace(st: State, before: Seq<Stimulus>, spec: JobSpec, after: Seq<Stimulus>)
    requires
        run(st, before).0 == State::Running,
    ensures
        run(st, before + after) == (
            run(State::Running, after).0,
            run(st, before).1 + run(State::Running, after).1,
        ),
        run(st, before + seq![Stimulus::Input(Input::NewTask(spec))] + after) == (
            run(st, before + after).0,
            run(st, before).1 + seq![Action::Emit(Event::TaskRefused(spec))] + run(State::Running, after).1,
        ),
{
    let req = Stimulus::Input(Input::NewTask(spec));
    lemma_run_append(st, before, after);
    assert(before + seq![req] + after =~= before + (seq![req] + after));
    lemma_run_append(st, before, seq![req] + after);
    lemma_run_first(State::Running, req, after);
    let refusal = seq![Action::Emit(Event::TaskRefused(spec))];
    assert(run(st, before).1 + (refusal + run(State::Running, after).1) =~= run(st, before).1 + refusal
        + run(State::Running, after).1);
}

/// After a job's `Done` has been relayed, the orchestrator is idle and
/// starts the next job it is asked for.
pub proof fn lemma_accepts_task_after_done(spec: JobSpec)
    ensures
        run(State::Running, seq![Stimulus::JobMessage(Message::Done), Stimulus::Input(Input::NewTask(spec))])
            == (
            State::Running,
            seq![Action::Emit(Event::Message(Message::Done)), Action::ReleaseJob, Action::StartJob(spec)],
        ),
{
    let ss = seq![Stimulus::JobMessage(Message::Done), Stimulus::Input(Input::NewTask(spec))];
    assert(ss =~= seq![Stimulus::JobMessage(Message::Done)] + seq![Stimulus::Input(Input::NewTask(spec))]);
    lemma_run_first(State::Running, Stimulus::JobMessage(Message::Done), seq![Stimulus::Input(Input::NewTask(spec))]);
    lemma_run_first(State::Idle, Stimulus::Input(Input::NewTask(spec)), seq![]);
    assert(seq![Stimulus::Input(Input::NewTask(spec))] + Seq::<Stimulus>::empty() =~= seq![Stimulus::Input(Input::NewTask(spec))]);
    assert(seq![Action::Emit(Event::Message(Message::Done)), Action::ReleaseJob] + (seq![Action::StartJob(spec)] + Seq::<Action>::empty())
        =~= seq![Action::Emit(Event::Message(Message::Done)), Action::ReleaseJob, Action::StartJob(spec)]);
}

pub struct Orchestrator {
    state: State,
}

impl Orchestrator {
    pub closed spec fn spec_state(&self) -> State {
        self.state
    }

    /// An orchestrator that has not been activated yet.
    pub fn new() -> (r: Orchestrator)
        ensures
            r.spec_state() == State::Starting,
    {
        Orchestrator { state: State::Starting }
    }

    pub fn state(&self) -> (r: State)
        ensures
            r == self.spec_state(),
    {
        self.state
    }

    /// Reacts to one stimulus: moves to the next state and returns the
    /// actions to perform, in order.
    pub fn step(&mut self, s: Stimulus) -> (acts: Vec<Action>)
        ensures
            (final(self).spec_state(), acts@) == transition(old(self).spec_state(), s),
    {
        let st = self.state;
        match s {
            Stimulus::Activate => match st {
                State::Starting => {
                    self.state = State::Idle;
                    vec![Action::PublishReady]
                },
                _ => Vec::new(),
            },
            Stimulus::Input(Input::Command(c)) => match st {
                State::Running => vec![Action::Forward(c)],
                _ => vec![Action::Emit(Event::CommandRefused(c))],
            },
            Stimulus::Input(Input::NewTask(spec)) => match st {
                State::Idle => {
                    self.state = State::Running;
                    vec![Action::StartJob(spec)]
                },
                _ => vec![Action::Emit(Event::TaskRefused(spec))],
            },
            Stimulus::JobMessage(m) => match st {
                State::Running => {
                    if m.is_done() {
                        self.state = State::Idle;
                        vec![Action::Emit(Event::Message(m)), Action::ReleaseJob]
                    } else {
                        vec![Action::Emit(Event::Message(m))]
                    }
                },
                _ => Vec::new(),
            },
            Stimulus::JobClosed => match st {
                State::Running => {
                    self.state = State::Idle;
                    vec![Action::ReleaseJob]
                },
                _ => Vec::new(),
            },
        }
    }
}

} // verus!
