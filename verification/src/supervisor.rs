use vstd::prelude::*;
use vstd::string::StrSliceExecFns;
use vstd::string::StringExecFns;
use vstd::utf8::decode_utf8;
use vstd::utf8::valid_utf8;

use crate::brew_command::BrewCommand;
use crate::brew_command::BrewError;
use crate::prompt::is_prompt_line;
use crate::prompt::is_waiting_for_input;

verus! {

/// The decimal digit characters of `n`, most significant first.
pub open spec fn dec_digits(n: nat) -> Seq<char>
    decreases n,
{
    if n < 10 {
        seq![digit_char(n)]
    } else {
        dec_digits(n / 10) + seq![digit_char(n % 10)]
    }
}

/// The character for one decimal digit.
pub open spec fn digit_char(d: nat) -> char {
    ((48 + d) as u8) as char
}

/// The decimal rendering of an integer, with a leading minus sign when it is
/// negative.
pub open spec fn int_dec(v: int) -> Seq<char> {
    if v < 0 {
        "-"@ + dec_digits((-v) as nat)
    } else {
        dec_digits(v as nat)
    }
}

fn digit_str(d: u64) -> (r: String)
    requires
        d < 10,
    ensures
        r@ == seq![digit_char(d as nat)],
{
    let r = if d == 0 {
        String::from_str("0")
    } else if d == 1 {
        String::from_str("1")
    } else if d == 2 {
        String::from_str("2")
    } else if d == 3 {
        String::from_str("3")
    } else if d == 4 {
        String::from_str("4")
    } else if d == 5 {
        String::from_str("5")
    } else if d == 6 {
        String::from_str("6")
    } else if d == 7 {
        String::from_str("7")
    } else if d == 8 {
        String::from_str("8")
    } else {
        String::from_str("9")
    };
    proof {
        reveal_strlit("0");
        reveal_strlit("1");
        reveal_strlit("2");
        reveal_strlit("3");
        reveal_strlit("4");
        reveal_strlit("5");
        reveal_strlit("6");
        reveal_strlit("7");
        reveal_strlit("8");
        reveal_strlit("9");
        assert(r@ =~= seq![digit_char(d as nat)]);
    }
    r
}

fn dec_str(n: u64) -> (r: String)
    ensures
        r@ == dec_digits(n as nat),
    decreases n,
{
    if n < 10 {
        digit_str(n)
    } else {
        let mut s = dec_str(n / 10);
        let d = digit_str(n % 10);
        s.append(d.as_str());
        s
    }
}

/// The failure text for a child that terminated without exiting zero: its
/// exit code in decimal, or "None" when the OS reported no code (the child
/// was killed by a signal).
pub open spec fn exit_message_spec(code: Option<i32>) -> Seq<char> {
    match code {
        Some(n) => "Process exited with code: "@ + int_dec(n as int),
        None => "Process exited with code: None"@,
    }
}

fn exit_message(code: Option<i32>) -> (r: String)
    ensures
        r@ == exit_message_spec(code),
{
    match code {
        None => String::from_str("Process exited with code: None"),
        Some(n) => {
            let mut s = String::from_str("Process exited with code: ");
            if n < 0 {
                s.append("-");
                let mag: u64 = (-(n as i64)) as u64;
                let t = dec_str(mag);
                s.append(t.as_str());
            } else {
                let t = dec_str(n as u64);
                s.append(t.as_str());
            }
            s
        },
    }
}

/// One event a supervised call can observe, from whichever watcher enqueues
/// first: a prompt was seen on stdout or stderr, the alarm fired, the child
/// terminated with an exit status, or waiting for the child itself failed.
#[derive(Debug)]
pub enum ProcessEvent {
    InputRequested,
    Timeout,
    Completed { code: Option<i32> },
    CompletionError { message: String },
}

/// What a supervised call returns for its first event; `None` stands for an
/// event channel that closed before delivering anything. Exit code zero is
/// the only success; every other first event maps to the matching failure.
pub open spec fn outcome_of(e: Option<ProcessEvent>, r: Result<(), BrewError>) -> bool {
    match e {
        None => r matches Err(BrewError::ExecutionFailed(m)) && m@ == "Event channel closed"@,
        Some(ProcessEvent::InputRequested) => r matches Err(BrewError::InputRequested),
        Some(ProcessEvent::Timeout) => r matches Err(BrewError::Timeout),
        Some(ProcessEvent::Completed { code }) => if code == Some(0i32) {
            r is Ok
        } else {
            r matches Err(BrewError::ExecutionFailed(m)) && m@ == exit_message_spec(code)
        },
        Some(ProcessEvent::CompletionError { message }) => r matches Err(
            BrewError::ExecutionFailed(m),
        ) && m@ == message@,
    }
}

/// Decides a supervised call from its first event.
pub fn resolve_event(e: &Option<ProcessEvent>) -> (r: Result<(), BrewError>)
    ensures
        outcome_of(*e, r),
{
    match e {
        None => Err(BrewError::ExecutionFailed(String::from_str("Event channel closed"))),
        Some(ProcessEvent::InputRequested) => Err(BrewError::InputRequested),
        Some(ProcessEvent::Timeout) => Err(BrewError::Timeout),
        Some(ProcessEvent::Completed { code }) => {
            match code {
                Some(c) => {
                    if *c == 0 {
                        Ok(())
                    } else {
                        Err(BrewError::ExecutionFailed(exit_message(Some(*c))))
                    }
                },
                None => Err(BrewError::ExecutionFailed(exit_message(None))),
            }
        },
        Some(ProcessEvent::CompletionError { message }) => Err(
            BrewError::ExecutionFailed(message.clone()),
        ),
    }
}

/// One step of an output watcher: the event it enqueues for one line the
/// child wrote, if any. A prompt line enqueues InputRequested; any other
/// line enqueues nothing.
pub fn scan_line(line: &str) -> (r: Option<ProcessEvent>)
    ensures
        r == if is_prompt_line(line@) {
            Some(ProcessEvent::InputRequested)
        } else {
            None::<ProcessEvent>
        },
{
    if is_waiting_for_input(line) {
        Some(ProcessEvent::InputRequested)
    } else {
        None
    }
}

/// Where a supervised call stands: not yet spawned, child running, outcome
/// decided but watchers not yet drained, or over.
#[derive(Debug)]
pub enum CallPhase {
    Spawning,
    Running,
    Terminating,
    Done,
}

/// The supervised-call state machine. The caller that owns the actual child
/// process drives it: spawn, hand over the first event, kill, finish. The
/// fields are written only through the methods; the well-formedness
/// predicate ties every outcome to the first observed event and forces at
/// least one kill before a spawned call can be over.
#[derive(Debug)]
pub struct SupervisedCall {
    pub phase: CallPhase,
    pub pid: Option<u32>,
    pub kills: u64,
    pub outcome: Option<Result<(), BrewError>>,
    pub first_event: Option<Option<ProcessEvent>>,
}

impl SupervisedCall {
    /// Every reachable state of the machine satisfies this.
    pub open spec fn wf(self) -> bool {
        &&& (self.phase matches CallPhase::Spawning ==> self.pid is None && self.kills == 0
            && self.outcome is None && self.first_event is None)
        &&& (self.phase matches CallPhase::Running ==> self.pid is Some && self.outcome is None
            && self.first_event is None)
        &&& (self.phase matches CallPhase::Terminating ==> self.pid is Some
            && self.first_event is Some)
        &&& (self.phase matches CallPhase::Done ==> self.outcome is Some)
        &&& (self.phase matches CallPhase::Done && self.pid is Some ==> self.kills >= 1)
        &&& (self.first_event matches Some(e) ==> self.outcome matches Some(r) && outcome_of(
            e,
            r,
        ))
        &&& (self.outcome is Some && self.first_event is None ==> self.pid is None
            && (self.outcome matches Some(r) && r matches Err(BrewError::ExecutionFailed(_))))
    }

    /// A fresh call, before any spawn was attempted.
    pub fn new() -> (s: Self)
        ensures
            s.wf(),
            s.phase matches CallPhase::Spawning,
            s.kills == 0,
            s.pid is None,
    {
        SupervisedCall {
            phase: CallPhase::Spawning,
            pid: None,
            kills: 0,
            outcome: None,
            first_event: None,
        }
    }

    /// The spawn itself failed: no child exists, no watcher was started, and
    /// the call is over with the OS error as its failure.
    pub fn spawn_failed(&mut self, message: String) -> (r: Result<(), BrewError>)
        requires
            old(self).wf(),
            old(self).phase matches CallPhase::Spawning,
        ensures
            final(self).wf(),
            final(self).phase matches CallPhase::Done,
            final(self).pid is None,
            final(self).kills == 0,
            r matches Err(BrewError::ExecutionFailed(m)) && m@ == message@,
            final(self).outcome == Some(r),
    {
        let stored = BrewError::ExecutionFailed(message.clone());
        self.phase = CallPhase::Done;
        self.outcome = Some(Err(stored));
        Err(BrewError::ExecutionFailed(message))
    }

    /// The child is up; its process id is recorded so the terminator can
    /// kill without racing the handle's owner.
    pub fn spawn_ok(&mut self, pid: u32)
        requires
            old(self).wf(),
            old(self).phase matches CallPhase::Spawning,
        ensures
            final(self).wf(),
            final(self).phase matches CallPhase::Running,
            final(self).pid == Some(pid),
            final(self).kills == 0,
    {
        self.phase = CallPhase::Running;
        self.pid = Some(pid);
    }

    /// The first event from the channel decides the outcome, once and for
    /// all; `None` stands for a channel that closed before any event.
    pub fn on_first_event(&mut self, e: Option<ProcessEvent>)
        requires
            old(self).wf(),
            old(self).phase matches CallPhase::Running,
        ensures
            final(self).wf(),
            final(self).phase matches CallPhase::Terminating,
            final(self).pid == old(self).pid,
            final(self).kills == old(self).kills,
            final(self).first_event == Some(e),
            final(self).outcome matches Some(r) && outcome_of(e, r),
    {
        let r = resolve_event(&e);
        self.outcome = Some(r);
        self.first_event = Some(e);
        self.phase = CallPhase::Terminating;
    }

    /// One kill signal sent to the recorded pid. Killing is idempotent at
    /// this level: the decided outcome and recorded event do not change, so
    /// re-killing an already-terminated child alters nothing the call
    /// returns.
    pub fn record_kill(&mut self)
        requires
            old(self).wf(),
            old(self).phase matches CallPhase::Terminating,
            old(self).kills < u64::MAX,
        ensures
            final(self).wf(),
            final(self).phase == old(self).phase,
            final(self).pid == old(self).pid,
            final(self).kills == old(self).kills + 1,
            final(self).outcome == old(self).outcome,
            final(self).first_event == old(self).first_event,
    {
        self.kills = self.kills + 1;
    }

    /// The watchers are joined and the call is over: returns the outcome the
    /// first event decided. A spawned child must have been killed at least
    /// once before the call may finish.
    pub fn finish(&mut self) -> (r: Result<(), BrewError>)
        requires
            old(self).wf(),
            old(self).phase matches CallPhase::Terminating,
            old(self).kills >= 1,
        ensures
            final(self).wf(),
            final(self).phase matches CallPhase::Done,
            final(self).pid == old(self).pid,
            final(self).kills == old(self).kills,
            final(self).outcome == old(self).outcome,
            final(self).first_event == old(self).first_event,
            Some(r) == old(self).outcome,
            old(self).first_event matches Some(e) && outcome_of(e, r),
    {
        self.phase = CallPhase::Done;
        match &self.outcome {
            Some(v) => copy_outcome(v),
            None => unreached(),
        }
    }
}

fn copy_outcome(o: &Result<(), BrewError>) -> (r: Result<(), BrewError>)
    ensures
        r == *o,
{
    match o {
        Ok(u) => Ok(*u),
        Err(BrewError::ExecutionFailed(m)) => Err(BrewError::ExecutionFailed(m.clone())),
        Err(BrewError::InputRequested) => Err(BrewError::InputRequested),
        Err(BrewError::Timeout) => Err(BrewError::Timeout),
    }
}

/// The blocking contract's decision: what one finished invocation returns,
/// given whether the child exited zero, the bytes it wrote to stdout and the
/// text it wrote to stderr. Exit zero yields the stdout bytes decoded as
/// UTF-8, or a failure when they are not valid UTF-8; a non-zero exit yields
/// the stderr text as the failure.
pub fn interpret_output(success: bool, stdout: Vec<u8>, stderr: String) -> (r: Result<
    String,
    BrewError,
>)
    ensures
        success && valid_utf8(stdout@) ==> (r matches Ok(s) && s@ == decode_utf8(stdout@)),
        success && !valid_utf8(stdout@) ==> (r matches Err(BrewError::ExecutionFailed(_))),
        !success ==> (r matches Err(BrewError::ExecutionFailed(m)) && m@ == stderr@),
{
    if success {
        match utf8_decode(stdout) {
            Ok(s) => Ok(s),
            Err(m) => Err(BrewError::ExecutionFailed(m)),
        }
    } else {
        Err(BrewError::ExecutionFailed(stderr))
    }
}

/// Relies on String::from_utf8: it returns the decoded text exactly when the
/// bytes are valid UTF-8, and an error value otherwise.
#[verifier::external_body]
fn utf8_decode(bytes: Vec<u8>) -> (r: Result<String, String>)
    ensures
        match r {
            Ok(s) => valid_utf8(bytes@) && s@ == decode_utf8(bytes@),
            Err(_) => !valid_utf8(bytes@),
        },
{
    String::from_utf8(bytes).map_err(|e| e.to_string())
}

/// A timeout in milliseconds. A negative duration clamps to zero; zero is a
/// legal budget and means the alarm fires as soon as it is armed.
pub fn clamp_timeout_millis(ms: i64) -> (r: u64)
    ensures
        r == if ms < 0 {
            0u64
        } else {
            ms as u64
        },
{
    if ms < 0 {
        0
    } else {
        ms as u64
    }
}

/// An upgrade of an empty package name is rejected before any child is
/// spawned; every other descriptor may spawn.
pub fn validate_spawn(cmd: &BrewCommand) -> (r: Result<(), BrewError>)
    ensures
        r is Ok <==> !(cmd matches BrewCommand::Upgrade { package_name, .. } && package_name@.len()
            == 0),
        r matches Err(e) ==> e matches BrewError::ExecutionFailed(_),
{
    match cmd {
        BrewCommand::Upgrade { package_name, .. } => {
            if package_name.as_str().is_empty() {
                Err(BrewError::ExecutionFailed(String::from_str("empty package name")))
            } else {
                Ok(())
            }
        },
        _ => Ok(()),
    }
}

/// A supervised call that is over and had spawned a child has killed it: at
/// least one kill signal went to the recorded pid on every such path.
pub proof fn lemma_done_child_killed(s: SupervisedCall)
    requires
        s.wf(),
        s.phase matches CallPhase::Done,
        s.pid is Some,
    ensures
        s.kills >= 1,
{
}

/// A supervised call reports InputRequested only when its first event was an
/// InputRequested event, i.e. only after a watcher saw a prompt line.
pub proof fn lemma_input_requested_needs_prompt_event(
    e: Option<ProcessEvent>,
    r: Result<(), BrewError>,
)
    requires
        outcome_of(e, r),
        r matches Err(BrewError::InputRequested),
    ensures
        e == Some(ProcessEvent::InputRequested),
{
}

/// A first event that is the alarm decides the call as Timeout.
pub proof fn lemma_timeout_event_times_out(r: Result<(), BrewError>)
    requires
        outcome_of(Some(ProcessEvent::Timeout), r),
    ensures
        r matches Err(BrewError::Timeout),
{
}

/// When the child exits zero before anything else is observed, the call is
/// Ok whatever a watcher might have enqueued later: the first event alone
/// decides.
pub proof fn lemma_completed_wins(r: Result<(), BrewError>)
    requires
        outcome_of(Some(ProcessEvent::Completed { code: Some(0i32) }), r),
    ensures
        r is Ok,
{
}

} // verus!

