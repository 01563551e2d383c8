//! Child process supervision: decoding raw termination state, the decision
//! step of the reap loop, and the plan by which a spawned child's standard
//! streams are wired through pipes.
//!
//! The operating-system primitives themselves (pipe creation, process
//! duplication, program replacement, blocking wait) live outside this
//! library; everything here is the decision logic those primitives are
//! driven by, stated and proved over plain values.

use vstd::prelude::*;

verus! {

/// How a child process terminated.
#[derive(Clone, Copy, Debug, PartialEq, Eq, Structural)]
pub enum ExitStatus {
    /// Normal termination with the given exit code.
    Code(i32),
    /// Abnormal termination by the given signal number.
    Signal(i32),
}

/// Whether a raw wait status word describes a normal exit: its low seven
/// bits are clear.
pub open spec fn status_exited(stat: i32) -> bool {
    stat & 0x7f == 0
}

/// The exit code a normal-exit status word carries, in its second byte.
pub open spec fn status_exit_code(stat: i32) -> i32 {
    (stat >> 8) & 0xff
}

/// The signal number a signal-termination status word carries, in its low
/// seven bits.
pub open spec fn status_term_signal(stat: i32) -> i32 {
    stat & 0x7f
}

impl ExitStatus {
    /// The typed termination outcome a raw wait status word decodes to:
    /// a normal exit yields its exit code, any other termination yields the
    /// terminating signal number.
    pub open spec fn of_wait_status(stat: i32) -> ExitStatus {
        if status_exited(stat) {
            ExitStatus::Code(status_exit_code(stat))
        } else {
            ExitStatus::Signal(status_term_signal(stat))
        }
    }

    /// Decodes a raw wait status word into a typed termination outcome.
    pub fn from_wait_status(stat: i32) -> (status: ExitStatus)
        ensures
            status == ExitStatus::of_wait_status(stat),
    {
        if stat & 0x7f == 0 {
            ExitStatus::Code((stat >> 8) & 0xff)
        } else {
            ExitStatus::Signal(stat & 0x7f)
        }
    }

    /// A termination counts as a success exactly when it is a normal exit
    /// with code zero.
    pub open spec fn is_success(self) -> bool {
        self == ExitStatus::Code(0i32)
    }

    /// Returns whether the child terminated successfully, that is, exited
    /// normally with code zero.
    pub fn success(&self) -> (r: bool)
        ensures
            r == self.is_success(),
    {
        match *self {
            ExitStatus::Code(0) => true,
            _ => false,
        }
    }
}

/// Exit-code round trip: the status word of a child that exits normally with
/// code `code` decodes to `Code(code)`, and that outcome is a success exactly
/// when the code is zero.
pub proof fn lemma_exit_code_round_trip(code: i32)
    requires
        0 <= code <= 255,
    ensures
        ExitStatus::of_wait_status(code << 8) == ExitStatus::Code(code),
        ExitStatus::Code(code).is_success() <==> code == 0,
{
    assert((code << 8) & 0x7f == 0 && ((code << 8) >> 8) & 0xff == code) by (bit_vector)
        requires
            0 <= code <= 255,
    ;
}

/// Signal round trip: the status word of a child terminated by signal `sig`
/// decodes to `Signal(sig)` whether or not the core-dump flag accompanies
/// it, and a signal termination is never a success.
pub proof fn lemma_signal_round_trip(sig: i32)
    requires
        1 <= sig <= 126,
    ensures
        ExitStatus::of_wait_status(sig) == ExitStatus::Signal(sig),
        ExitStatus::of_wait_status(sig | 0x80) == ExitStatus::Signal(sig),
        !ExitStatus::Signal(sig).is_success(),
{
    assert(sig & 0x7f == sig && sig & 0x7f != 0) by (bit_vector)
        requires
            1 <= sig <= 126,
    ;
    assert((sig | 0x80) & 0x7f == sig && (sig | 0x80) & 0x7f != 0) by (bit_vector)
        requires
            1 <= sig <= 126,
    ;
}

/// Whatever the raw status word, the decoded outcome stays in the ranges
/// the status-word layout admits: a normal exit carries a code between 0 and
/// 255, a signal termination a signal number between 1 and 127.
pub proof fn lemma_decoded_ranges(stat: i32)
    ensures
        ExitStatus::of_wait_status(stat) matches ExitStatus::Code(code) ==> 0 <= code <= 255,
        ExitStatus::of_wait_status(stat) matches ExitStatus::Signal(sig) ==> 1 <= sig <= 127,
{
    assert(0 <= (stat >> 8) & 0xff <= 255) by (bit_vector);
    assert(0 <= stat & 0x7f <= 127) by (bit_vector);
}

/// The decision taken after one observation of the wait primitive.
#[derive(Clone, Copy, Debug, PartialEq, Eq, Structural)]
pub enum WaitStep {
    /// The wait primitive itself failed; supervision cannot continue.
    Failed,
    /// A child other than the tracked one changed state; its notification is
    /// discarded and the loop waits again.
    KeepWaiting,
    /// The tracked child terminated, with the given decoded outcome.
    Finished(ExitStatus),
}

/// One decision step of the reap loop: wait for *any* child, discard
/// notifications for children other than the tracked pid, and stop either on
/// a wait failure or on the tracked child's own termination, decoding its
/// raw status.
pub fn wait_step(target_pid: i32, waited_pid: i32, stat: i32) -> (step: WaitStep)
    ensures
        waited_pid < 0 ==> step == WaitStep::Failed,
        waited_pid >= 0 && waited_pid == target_pid ==> step == WaitStep::Finished(
            ExitStatus::of_wait_status(stat),
        ),
        waited_pid >= 0 && waited_pid != target_pid ==> step == WaitStep::KeepWaiting,
{
    if waited_pid < 0 {
        WaitStep::Failed
    } else if waited_pid == target_pid {
        WaitStep::Finished(ExitStatus::from_wait_status(stat))
    } else {
        WaitStep::KeepWaiting
    }
}

/// One unidirectional byte-stream pipe, as the pair of descriptors its
/// creation returns.
#[derive(Clone, Copy, Debug, PartialEq, Eq, Structural)]
pub struct Pipe {
    /// The descriptor from which the pipe's contents are read.
    pub read_end: i32,
    /// The descriptor to which the pipe's contents are written.
    pub write_end: i32,
}

/// The descriptor plan for substituting three pipes for a child's standard
/// streams. The child first closes the parent-facing end of each pipe, then
/// duplicates each child-facing end onto the well-known standard descriptor
/// and closes the duplicated source; the parent closes the child-facing ends
/// and retains exactly the three parent-facing ends as its handles on the
/// child's standard input, output and error.
pub struct StdioWiring {
    /// Descriptors the child closes before rewiring: the parent-facing end
    /// of each pipe.
    pub child_close: Vec<i32>,
    /// The duplications the child then performs, in order, as
    /// (source, target) pairs: the source is duplicated onto the target
    /// standard descriptor and then closed.
    pub child_dup2: Vec<(i32, i32)>,
    /// Descriptors the parent closes once the child owns them: the
    /// child-facing end of each pipe.
    pub parent_close: Vec<i32>,
    /// The descriptor on which the parent writes to the child's standard
    /// input.
    pub parent_stdin: i32,
    /// The descriptor on which the parent reads the child's standard output.
    pub parent_stdout: i32,
    /// The descriptor on which the parent reads the child's standard error.
    pub parent_stderr: i32,
}

/// Whether a wiring plan is the right one for the given three pipes: the
/// child sheds the parent-facing ends and receives the child-facing ends on
/// descriptors 0, 1 and 2, while the parent sheds the child-facing ends and
/// retains the parent-facing ends as its three stream handles.
pub open spec fn wiring_correct(
    w: StdioWiring,
    stdin_pipe: Pipe,
    stdout_pipe: Pipe,
    stderr_pipe: Pipe,
) -> bool {
    &&& w.child_close@ == seq![stdin_pipe.write_end, stdout_pipe.read_end, stderr_pipe.read_end]
    &&& w.child_dup2@ == seq![
        (stdin_pipe.read_end, 0i32),
        (stdout_pipe.write_end, 1i32),
        (stderr_pipe.write_end, 2i32),
    ]
    &&& w.parent_close@ == seq![stdin_pipe.read_end, stdout_pipe.write_end, stderr_pipe.write_end]
    &&& w.parent_stdin == stdin_pipe.write_end
    &&& w.parent_stdout == stdout_pipe.read_end
    &&& w.parent_stderr == stderr_pipe.read_end
}

/// Computes the descriptor plan for a spawn whose three pipes are the given
/// ones: which descriptors the child closes and duplicates onto its standard
/// streams, which the parent closes, and which the parent retains.
pub fn plan_stdio_wiring(stdin_pipe: Pipe, stdout_pipe: Pipe, stderr_pipe: Pipe) -> (w: StdioWiring)
    ensures
        wiring_correct(w, stdin_pipe, stdout_pipe, stderr_pipe),
{
    let mut child_close: Vec<i32> = Vec::new();
    child_close.push(stdin_pipe.write_end);
    child_close.push(stdout_pipe.read_end);
    child_close.push(stderr_pipe.read_end);

    let mut child_dup2: Vec<(i32, i32)> = Vec::new();
    child_dup2.push((stdin_pipe.read_end, 0));
    child_dup2.push((stdout_pipe.write_end, 1));
    child_dup2.push((stderr_pipe.write_end, 2));

    let mut parent_close: Vec<i32> = Vec::new();
    parent_close.push(stdin_pipe.read_end);
    parent_close.push(stdout_pipe.write_end);
    parent_close.push(stderr_pipe.write_end);

    proof {
        assert(child_close@ =~= seq![
            stdin_pipe.write_end,
            stdout_pipe.read_end,
            stderr_pipe.read_end,
        ]);
        assert(child_dup2@ =~= seq![
            (stdin_pipe.read_end, 0i32),
            (stdout_pipe.write_end, 1i32),
            (stderr_pipe.write_end, 2i32),
        ]);
        assert(parent_close@ =~= seq![
            stdin_pipe.read_end,
            stdout_pipe.write_end,
            stderr_pipe.write_end,
        ]);
    }

    StdioWiring {
        child_close,
        child_dup2,
        parent_close,
        parent_stdin: stdin_pipe.write_end,
        parent_stdout: stdout_pipe.read_end,
        parent_stderr: stderr_pipe.read_end,
    }
}

/// The set of both descriptors of one pipe.
pub open spec fn pipe_ends(p: Pipe) -> Set<int> {
    set![p.read_end as int, p.write_end as int]
}

/// The set of all six descriptors created for one spawn.
pub open spec fn spawn_pipe_ends(stdin_pipe: Pipe, stdout_pipe: Pipe, stderr_pipe: Pipe) -> Set<
    int,
> {
    pipe_ends(stdin_pipe).union(pipe_ends(stdout_pipe)).union(pipe_ends(stderr_pipe))
}

/// The three descriptors the parent retains as its stream handles.
pub open spec fn parent_retained(w: StdioWiring) -> Set<int> {
    set![w.parent_stdin as int, w.parent_stdout as int, w.parent_stderr as int]
}

/// The three descriptors the parent closes.
pub open spec fn parent_closed(w: StdioWiring) -> Set<int>
    recommends
        w.parent_close@.len() == 3,
{
    set![
        w.parent_close@[0] as int,
        w.parent_close@[1] as int,
        w.parent_close@[2] as int,
    ]
}

/// The three descriptors the child closes before rewiring.
pub open spec fn child_closed(w: StdioWiring) -> Set<int>
    recommends
        w.child_close@.len() == 3,
{
    set![
        w.child_close@[0] as int,
        w.child_close@[1] as int,
        w.child_close@[2] as int,
    ]
}

/// The three descriptors the child duplicates onto its standard streams and
/// then closes.
pub open spec fn child_dup_sources(w: StdioWiring) -> Set<int>
    recommends
        w.child_dup2@.len() == 3,
{
    set![
        w.child_dup2@[0].0 as int,
        w.child_dup2@[1].0 as int,
        w.child_dup2@[2].0 as int,
    ]
}

/// Whether the six descriptors of a spawn's three pipes are pairwise
/// distinct, as descriptors returned by successive pipe creations are.
pub open spec fn ends_distinct(stdin_pipe: Pipe, stdout_pipe: Pipe, stderr_pipe: Pipe) -> bool {
    &&& stdin_pipe.read_end != stdin_pipe.write_end
    &&& stdin_pipe.read_end != stdout_pipe.read_end
    &&& stdin_pipe.read_end != stdout_pipe.write_end
    &&& stdin_pipe.read_end != stderr_pipe.read_end
    &&& stdin_pipe.read_end != stderr_pipe.write_end
    &&& stdin_pipe.write_end != stdout_pipe.read_end
    &&& stdin_pipe.write_end != stdout_pipe.write_end
    &&& stdin_pipe.write_end != stderr_pipe.read_end
    &&& stdin_pipe.write_end != stderr_pipe.write_end
    &&& stdout_pipe.read_end != stdout_pipe.write_end
    &&& stdout_pipe.read_end != stderr_pipe.read_end
    &&& stdout_pipe.read_end != stderr_pipe.write_end
    &&& stdout_pipe.write_end != stderr_pipe.read_end
    &&& stdout_pipe.write_end != stderr_pipe.write_end
    &&& stderr_pipe.read_end != stderr_pipe.write_end
}

/// No descriptor leak: on the success path, of the six descriptors a spawn
/// creates the parent retains exactly the three pairwise-distinct stream
/// handles and closes exactly the other three; and on the child side every
/// one of the six is either closed outright or closed after being duplicated
/// onto a standard descriptor. Nothing is left unaccounted for in either
/// process.
pub proof fn lemma_no_descriptor_leak(
    w: StdioWiring,
    stdin_pipe: Pipe,
    stdout_pipe: Pipe,
    stderr_pipe: Pipe,
)
    requires
        wiring_correct(w, stdin_pipe, stdout_pipe, stderr_pipe),
        ends_distinct(stdin_pipe, stdout_pipe, stderr_pipe),
    ensures
        w.parent_close@.len() == 3,
        w.child_close@.len() == 3,
        w.child_dup2@.len() == 3,
        w.parent_stdin != w.parent_stdout,
        w.parent_stdin != w.parent_stderr,
        w.parent_stdout != w.parent_stderr,
        parent_retained(w).disjoint(parent_closed(w)),
        parent_retained(w).union(parent_closed(w)) == spawn_pipe_ends(
            stdin_pipe,
            stdout_pipe,
            stderr_pipe,
        ),
        child_closed(w).disjoint(child_dup_sources(w)),
        child_closed(w).union(child_dup_sources(w)) == spawn_pipe_ends(
            stdin_pipe,
            stdout_pipe,
            stderr_pipe,
        ),
{
    assert(parent_retained(w).union(parent_closed(w)) =~= spawn_pipe_ends(
        stdin_pipe,
        stdout_pipe,
        stderr_pipe,
    ));
    assert(child_closed(w).union(child_dup_sources(w)) =~= spawn_pipe_ends(
        stdin_pipe,
        stdout_pipe,
        stderr_pipe,
    ));
}

/// Stream wiring: for each of the three standard streams, the descriptor the
/// parent retains and the descriptor the child receives on the standard
/// descriptor number are the two ends of one and the same pipe — the parent
/// writes the child's standard input on the write end of the pipe whose read
/// end becomes descriptor 0 in the child, and reads the child's standard
/// output and error on the read ends of the pipes whose write ends become
/// descriptors 1 and 2.
pub proof fn lemma_stream_wiring(
    w: StdioWiring,
    stdin_pipe: Pipe,
    stdout_pipe: Pipe,
    stderr_pipe: Pipe,
)
    requires
        wiring_correct(w, stdin_pipe, stdout_pipe, stderr_pipe),
    ensures
        w.child_dup2@[0] == (stdin_pipe.read_end, 0i32) && w.parent_stdin == stdin_pipe.write_end,
        w.child_dup2@[1] == (stdout_pipe.write_end, 1i32) && w.parent_stdout
            == stdout_pipe.read_end,
        w.child_dup2@[2] == (stderr_pipe.write_end, 2i32) && w.parent_stderr
            == stderr_pipe.read_end,
{
}

} // verus!
