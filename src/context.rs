//! Execution contexts: what each launch runs, how a context moves through
//! its one-shot life, and how the whole process ends.
use vstd::prelude::*;

verus! {

/// The guest export that a context calls.
#[derive(PartialEq, Eq, Structural, Debug, Clone, Copy)]
pub enum Entry {
    /// `boot()`, run by the first context on the host's main thread.
    Boot,
    /// `task(arg)`, run by a worker.
    Task,
    /// `secondary(cpu, idle)`, run by a processor brought online.
    Secondary,
}

impl Entry {
    pub open spec fn spec_symbol(self) -> Seq<char> {
        match self {
            Entry::Boot => "boot"@,
            Entry::Task => "task"@,
            Entry::Secondary => "secondary"@,
        }
    }

    /// Name of the guest export.
    pub fn symbol(&self) -> (r: &'static str)
        ensures
            r@ == self.spec_symbol(),
    {
        proof {
            reveal_strlit("boot");
            reveal_strlit("task");
            reveal_strlit("secondary");
        }
        match self {
            Entry::Boot => "boot",
            Entry::Task => "task",
            Entry::Secondary => "secondary",
        }
    }

    /// Number of integer arguments the export takes.
    pub fn arity(&self) -> (r: usize)
        ensures
            r == match *self {
                Entry::Boot => 0usize,
                Entry::Task => 1usize,
                Entry::Secondary => 2usize,
            },
    {
        match self {
            Entry::Boot => 0,
            Entry::Task => 1,
            Entry::Secondary => 2,
        }
    }
}

/// One new execution context to start on a thread of its own: the thread's
/// name, the export it calls and the arguments it passes.
pub struct Launch {
    pub name: Vec<u8>,
    pub entry: Entry,
    pub args: Vec<u32>,
}

/// Decimal digits of `n`, in ASCII.
pub open spec fn decimal(n: nat) -> Seq<u8>
    decreases n,
{
    if n < 10 {
        seq![(48 + n) as u8]
    } else {
        decimal(n / 10).push((48 + n % 10) as u8)
    }
}

/// The thread name of the context that runs processor `cpu`.
pub open spec fn secondary_name(cpu: u32) -> Seq<u8> {
    seq![101u8, 110u8, 116u8, 114u8, 121u8] + decimal(cpu as nat)
}

fn push_decimal(n: u32, out: &mut Vec<u8>)
    ensures
        final(out)@ == old(out)@ + decimal(n as nat),
    decreases n,
{
    if n >= 10 {
        push_decimal(n / 10, out);
    }
    out.push((48 + n % 10) as u8);
    assert(final(out)@ =~= old(out)@ + decimal(n as nat));
}

/// `new_worker(task, ..)`: one context, named by the bytes read from the
/// guest, that calls `task(task)`.
pub fn worker_launch(task: u32, name: Vec<u8>) -> (r: Launch)
    ensures
        r.entry == Entry::Task,
        r.args@ == seq![task],
        r.name@ == name@,
{
    let mut args: Vec<u32> = Vec::new();
    args.push(task);
    assert(args@ =~= seq![task]);
    Launch { name, entry: Entry::Task, args }
}

/// `bringup_secondary(cpu, idle)`: one context, named `entry<cpu>`, that
/// calls `secondary(cpu, idle)`.
pub fn secondary_launch(cpu: u32, idle: u32) -> (r: Launch)
    ensures
        r.entry == Entry::Secondary,
        r.args@ == seq![cpu, idle],
        r.name@ == secondary_name(cpu),
{
    let mut name: Vec<u8> = Vec::new();
    name.push(101u8);
    name.push(110u8);
    name.push(116u8);
    name.push(114u8);
    name.push(121u8);
    push_decimal(cpu, &mut name);
    let mut args: Vec<u32> = Vec::new();
    args.push(cpu);
    args.push(idle);
    assert(args@ =~= seq![cpu, idle]);
    assert(name@ =~= secondary_name(cpu));
    Launch { name, entry: Entry::Secondary, args }
}

/// Where a context stands in its one-shot life.
#[derive(PartialEq, Eq, Structural, Debug, Clone, Copy)]
pub enum Phase {
    /// Shared state cloned and a fresh store built over it.
    Created,
    /// The guest program is bound to the store.
    Instantiated,
    /// The entry export is being run.
    Running,
    /// The entry returned, or the context failed.
    Terminated,
}

/// What happened to a context.
#[derive(PartialEq, Eq, Structural, Debug, Clone, Copy)]
pub enum Step {
    /// The program was instantiated in the context's store.
    Instantiate,
    /// The entry export was found and called.
    Invoke,
    /// The entry export returned.
    Finish,
    /// Instantiation failed, the export is missing, or the guest trapped.
    Fail,
}

pub open spec fn rank(p: Phase) -> int {
    match p {
        Phase::Created => 0,
        Phase::Instantiated => 1,
        Phase::Running => 2,
        Phase::Terminated => 3,
    }
}

pub open spec fn spec_advance(p: Phase, s: Step) -> Option<Phase> {
    match (p, s) {
        (Phase::Created, Step::Instantiate) => Some(Phase::Instantiated),
        (Phase::Instantiated, Step::Invoke) => Some(Phase::Running),
        (Phase::Running, Step::Finish) => Some(Phase::Terminated),
        (Phase::Terminated, _) => None,
        (_, Step::Fail) => Some(Phase::Terminated),
        _ => None,
    }
}

/// The phase that follows `p` on `s`, or `None` where `s` cannot happen in
/// `p`.
pub fn advance(p: Phase, s: Step) -> (r: Option<Phase>)
    ensures
        r == spec_advance(p, s),
{
    match (p, s) {
        (Phase::Created, Step::Instantiate) => Some(Phase::Instantiated),
        (Phase::Instantiated, Step::Invoke) => Some(Phase::Running),
        (Phase::Running, Step::Finish) => Some(Phase::Terminated),
        (Phase::Terminated, _) => None,
        (_, Step::Fail) => Some(Phase::Terminated),
        _ => None,
    }
}

/// A context only moves forward, and once terminated it never moves again.
pub proof fn lemma_one_shot(p: Phase, s: Step)
    ensures
        spec_advance(p, s) is Some ==> rank(spec_advance(p, s)->Some_0) > rank(p),
        p == Phase::Terminated ==> spec_advance(p, s) is None,
        p != Phase::Terminated && s == Step::Fail ==> spec_advance(p, s) == Some(
            Phase::Terminated,
        ),
{
}

/// Why the whole process ends.
#[derive(PartialEq, Eq, Structural, Debug, Clone, Copy)]
pub enum Shutdown {
    /// The guest called `halt()`.
    Halt,
    /// The guest called `restart()`.
    Restart,
}

/// The exit status of the process for a guest-requested shutdown.
pub const SHUTDOWN_STATUS: i32 = 1;

impl Shutdown {
    /// Line printed before the process ends.
    pub fn message(&self) -> (r: &'static str)
        ensures
            r@ == match *self {
                Shutdown::Halt => "halt"@,
                Shutdown::Restart => "restart"@,
            },
    {
        proof {
            reveal_strlit("halt");
            reveal_strlit("restart");
        }
        match self {
            Shutdown::Halt => "halt",
            Shutdown::Restart => "restart",
        }
    }

    /// Exit status of the process: fixed and non-zero.
    pub fn exit_status(&self) -> (r: i32)
        ensures
            r == SHUTDOWN_STATUS,
            r != 0,
    {
        SHUTDOWN_STATUS
    }
}

} // verus!
