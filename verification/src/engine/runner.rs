//! The decisions of the process runner: which children receive forwarded
//! signals, which signals end the runner, when an exited child is
//! restarted, and the command line that starts a child. The runner
//! itself (spawning, waiting, sending signals) drives these decisions.

use crate::engine::args::{arg_words, Arg};
use crate::engine::error::PDPError;
use crate::text::{string_views, str_eq};
use std::collections::HashSet;
use vstd::std_specs::hash::spec_hash_keys_iter;
use vstd::std_specs::iter::IteratorSpec;
use vstd::prelude::*;

verus! {

/// The number of `SIGHUP`.
pub const SIGHUP: i32 = 1;

/// The number of `SIGINT`.
pub const SIGINT: i32 = 2;

/// The number of `SIGKILL`.
pub const SIGKILL: i32 = 9;

/// The number of `SIGUSR1`.
pub const SIGUSR1: i32 = 10;

/// The number of `SIGUSR2`.
pub const SIGUSR2: i32 = 12;

/// The number of `SIGTERM`.
pub const SIGTERM: i32 = 15;

/// The signals that end the runner: `SIGTERM`, `SIGINT` and `SIGHUP`.
pub open spec fn termination_signal(signal: i32) -> bool {
    signal == SIGTERM || signal == SIGINT || signal == SIGHUP
}

/// Of the signals the runner forwards, `SIGTERM`, `SIGINT` and `SIGHUP`
/// end it and the user signals `SIGUSR1` and `SIGUSR2` do not; `SIGKILL`,
/// which it sends itself, does not either. Every signal that ends the
/// runner is one that it forwards.
pub proof fn lemma_termination_signals(signal: i32)
    ensures
        termination_signal(SIGTERM),
        termination_signal(SIGINT),
        termination_signal(SIGHUP),
        !termination_signal(SIGUSR1),
        !termination_signal(SIGUSR2),
        !termination_signal(SIGKILL),
        termination_signal(signal) ==> seq![SIGTERM, SIGINT, SIGHUP, SIGUSR1, SIGUSR2].contains(signal),
{
    if termination_signal(signal) {
        let s = seq![SIGTERM, SIGINT, SIGHUP, SIGUSR1, SIGUSR2];
        if signal == SIGTERM {
            assert(s[0] == signal);
        } else if signal == SIGINT {
            assert(s[1] == signal);
        } else {
            assert(s[2] == signal);
        }
    }
}

/// Whether a signal ends the runner.
pub fn is_termination_signal(signal: i32) -> (b: bool)
    ensures
        b == termination_signal(signal),
        (signal == SIGTERM || signal == SIGINT || signal == SIGHUP) ==> b,
        (signal == SIGUSR1 || signal == SIGUSR2 || signal == SIGKILL) ==> !b,
{
    signal == SIGTERM || signal == SIGINT || signal == SIGHUP
}

/// The signals the runner handles and forwards to its children:
/// `SIGTERM`, `SIGINT`, `SIGHUP`, `SIGUSR1` and `SIGUSR2`.
pub fn forwarded_signals() -> (v: Vec<i32>)
    ensures
        v@ == seq![SIGTERM, SIGINT, SIGHUP, SIGUSR1, SIGUSR2],
{
    let mut v: Vec<i32> = Vec::new();
    v.push(SIGTERM);
    v.push(SIGINT);
    v.push(SIGHUP);
    v.push(SIGUSR1);
    v.push(SIGUSR2);
    v
}

/// The process ids that receive forwarded signals.
#[derive(Debug)]
pub struct ChildRegistry {
    pub pids: HashSet<u32>,
}

impl View for ChildRegistry {
    type V = Set<u32>;

    open spec fn view(&self) -> Set<u32> {
        self.pids@
    }
}

impl ChildRegistry {
    /// An empty registry.
    pub fn new() -> (r: ChildRegistry)
        ensures
            r@ == Set::<u32>::empty(),
    {
        ChildRegistry { pids: HashSet::new() }
    }

    /// Registers a child for signal forwarding.
    pub fn register(&mut self, pid: u32)
        ensures
            final(self)@ == old(self)@.insert(pid),
    {
        broadcast use vstd::std_specs::hash::group_hash_axioms;

        self.pids.insert(pid);
    }

    /// Removes a child from signal forwarding; whether it was there.
    pub fn unregister(&mut self, pid: u32) -> (removed: bool)
        ensures
            final(self)@ == old(self)@.remove(pid),
            removed == old(self)@.contains(pid),
    {
        broadcast use vstd::std_specs::hash::group_hash_axioms;

        self.pids.remove(&pid)
    }

    /// The registered ids, each once and in no particular order, to signal
    /// without holding the registry.
    pub fn snapshot(&self) -> (v: Vec<u32>)
        ensures
            v@.to_set() == self@,
            v@.no_duplicates(),
    {
        broadcast use vstd::std_specs::hash::group_hash_axioms;

        let mut v: Vec<u32> = Vec::new();
        let ghost keys = spec_hash_keys_iter(&self.pids).remaining();
        for pid in it: self.pids.iter()
            invariant
                it.seq() == keys,
                v@.len() == it.index(),
                forall|k: int| 0 <= k < it.index() ==> v@[k] == *keys[k],
        {
            v.push(*pid);
        }
        assert(v@.len() == keys.len());
        assert(v@ =~= keys.unref());
        v
    }
}

/// Whether an exited child is started again: always, whatever ended it
/// (a child killed from outside, even by `SIGTERM` or `SIGINT`, comes
/// back), unless shutdown was requested. A termination signal that the
/// runner receives and forwards requests shutdown before it reaches the
/// child.
pub fn should_restart(shutdown_requested: bool) -> (b: bool)
    ensures
        b == !shutdown_requested,
{
    !shutdown_requested
}

/// A process id as the signal call takes it, if it fits.
pub fn pid_for_signal(pid: u32) -> (r: Option<i32>)
    ensures
        pid <= i32::MAX ==> r == Some(pid as i32),
        pid > i32::MAX ==> r is None,
{
    if pid <= 2147483647 {
        Some(pid as i32)
    } else {
        None
    }
}

/// How sending a signal to a child ended.
#[derive(Debug, Clone, Copy, PartialEq, Eq, Structural)]
pub enum KillOutcome {
    Sent,
    /// The process does not exist any more.
    NoSuchProcess,
    Failed,
}

/// What follows sending a forwarded signal to a child.
#[derive(Debug, Clone, Copy, PartialEq, Eq, Structural)]
pub enum ForwardFollowUp {
    /// Nothing more.
    Done,
    /// The child is gone: remove it from the registry.
    Unregister,
    /// A termination signal reached the child: cancel the runner and wait
    /// for the child to exit.
    AwaitExit,
}

/// What follows sending `signal` to a child.
pub fn after_forward(signal: i32, outcome: KillOutcome) -> (f: ForwardFollowUp)
    ensures
        outcome == KillOutcome::NoSuchProcess ==> f == ForwardFollowUp::Unregister,
        outcome == KillOutcome::Failed ==> f == ForwardFollowUp::Done,
        outcome == KillOutcome::Sent ==> (f == ForwardFollowUp::AwaitExit <==> termination_signal(
            signal,
        )) && (f == ForwardFollowUp::AwaitExit || f == ForwardFollowUp::Done),
        (outcome == KillOutcome::Sent && (signal == SIGTERM || signal == SIGINT || signal == SIGHUP))
            ==> f == ForwardFollowUp::AwaitExit,
        (outcome == KillOutcome::Sent && (signal == SIGUSR1 || signal == SIGUSR2)) ==> f
            == ForwardFollowUp::Done,
{
    match outcome {
        KillOutcome::NoSuchProcess => ForwardFollowUp::Unregister,
        KillOutcome::Failed => ForwardFollowUp::Done,
        KillOutcome::Sent => if is_termination_signal(signal) {
            ForwardFollowUp::AwaitExit
        } else {
            ForwardFollowUp::Done
        },
    }
}

/// What a non-blocking wait on a terminated child saw.
#[derive(Debug, Clone, Copy, PartialEq, Eq, Structural)]
pub enum WaitObservation {
    StillAlive,
    Exited,
    /// The child was already reaped.
    NoChild,
    Failed,
}

/// The next step of waiting for a signalled child to exit.
#[derive(Debug, Clone, Copy, PartialEq, Eq, Structural)]
pub enum ExitWait {
    /// Poll again after a short pause.
    Poll,
    /// The wait is over.
    Stop,
    /// The grace period ran out: kill the child with `SIGKILL`.
    ForceKill,
}

/// The grace period of a signalled child, in milliseconds.
pub const EXIT_GRACE_MS: u64 = 5000;

/// The next step of waiting for a child, `elapsed_ms` into the grace
/// period: polling goes on while the child is alive within the period; the
/// child is killed once the period is over; any other observation ends the
/// wait.
pub fn exit_wait_step(elapsed_ms: u64, observed: Option<WaitObservation>) -> (s: ExitWait)
    ensures
        elapsed_ms >= EXIT_GRACE_MS ==> s == ExitWait::ForceKill,
        elapsed_ms < EXIT_GRACE_MS ==> match observed {
            Some(WaitObservation::StillAlive) => s == ExitWait::Poll,
            _ => s == ExitWait::Stop,
        },
{
    if elapsed_ms >= EXIT_GRACE_MS {
        return ExitWait::ForceKill;
    }
    match observed {
        Some(WaitObservation::StillAlive) => ExitWait::Poll,
        _ => ExitWait::Stop,
    }
}

/// The words that follow the interpreter on a child's command line: the
/// words of each argument, in order.
pub open spec fn command_words(args: Seq<Arg>) -> Seq<Seq<char>>
    decreases args.len(),
{
    if args.len() == 0 {
        Seq::empty()
    } else {
        command_words(args.drop_last()) + arg_words(args.last())
    }
}

/// The command-line words of the arguments.
pub fn command_args(args: &Vec<Arg>) -> (v: Vec<String>)
    ensures
        string_views(v@) == command_words(args@),
{
    let mut v: Vec<String> = Vec::new();
    let mut i: usize = 0;
    while i < args.len()
        invariant
            i <= args@.len(),
            string_views(v@) == command_words(args@.subrange(0, i as int)),
        decreases args@.len() - i,
    {
        assert(args@.subrange(0, i + 1).drop_last() =~= args@.subrange(0, i as int));
        let words = args[i].to_args();
        let ghost before = string_views(v@);
        let mut k: usize = 0;
        while k < words.len()
            invariant
                k <= words@.len(),
                string_views(v@) == before + string_views(words@).subrange(0, k as int),
            decreases words@.len() - k,
        {
            let ghost prev = v@;
            v.push(words[k].clone());
            assert(string_views(v@) =~= string_views(prev).push(words@[k as int]@));
            assert(string_views(words@).subrange(0, k + 1) =~= string_views(words@).subrange(0, k as int).push(words@[k as int]@));
            assert(string_views(v@) =~= before + string_views(words@).subrange(0, k + 1));
            k = k + 1;
        }
        assert(string_views(words@).subrange(0, words@.len() as int) == string_views(words@));
        i = i + 1;
    }
    assert(args@.subrange(0, args@.len() as int) == args@);
    v
}

/// The text of a command line for the log: the interpreter followed by each
/// word, each after a space.
pub open spec fn command_text_spec(python: Seq<char>, words: Seq<Seq<char>>) -> Seq<char>
    decreases words.len(),
{
    if words.len() == 0 {
        python
    } else {
        command_text_spec(python, words.drop_last()) + " "@ + words.last()
    }
}

/// The command line of a child, as the runner logs it.
pub fn command_text(python_path: &str, args: &Vec<Arg>) -> (s: String)
    ensures
        s@ == command_text_spec(python_path@, command_words(args@)),
{
    let words = command_args(args);
    let mut s = python_path.to_owned();
    let mut i: usize = 0;
    while i < words.len()
        invariant
            i <= words@.len(),
            s@ == command_text_spec(python_path@, string_views(words@).subrange(0, i as int)),
        decreases words@.len() - i,
    {
        assert(string_views(words@).subrange(0, i + 1).drop_last() =~= string_views(words@).subrange(0, i as int));
        s.append(" ");
        s.append(words[i].as_str());
        i = i + 1;
    }
    assert(string_views(words@).subrange(0, words@.len() as int) == string_views(words@));
    s
}

/// Whether a restart may begin: not once shutdown was requested.
pub fn restart_precheck(shutdown_requested: bool) -> (r: Result<(), PDPError>)
    ensures
        shutdown_requested <==> r matches Err(PDPError::ShutdownTriggered),
        !shutdown_requested ==> r is Ok,
{
    if shutdown_requested {
        Err(PDPError::ShutdownTriggered)
    } else {
        Ok(())
    }
}

/// The outcome of a restart, from the process id seen after the old
/// process was killed: none (0) means no new process started.
pub fn restart_outcome(pid: u32) -> (r: Result<(), PDPError>)
    ensures
        pid == 0 ==> (r matches Err(PDPError::ProcessManagement(m)) && m@
            == "PDP process failed to restart after kill"@),
        pid != 0 ==> r is Ok,
{
    if pid == 0 {
        Err(PDPError::ProcessManagement("PDP process failed to restart after kill".to_owned()))
    } else {
        Ok(())
    }
}

/// The process id a signal is sent to: none (0) means no process runs.
/// The id is taken as the signal call's `i32`, wrapping as a cast does.
pub fn signal_target(pid: u32) -> (r: Result<i32, PDPError>)
    ensures
        pid == 0 ==> r matches Err(PDPError::ProcessNotRunning),
        pid != 0 ==> r == Ok::<i32, PDPError>(pid as i32),
{
    if pid == 0 {
        Err(PDPError::ProcessNotRunning)
    } else {
        Ok(pid as i32)
    }
}

} // verus!
