//! System calls of the batch kernel: what a trapped user app asked for, how the
//! answer goes back into its registers, and the handlers behind `write` and `exit`.
use vstd::prelude::*;

verus! {

/// Number of the `exit` system call.
pub const SYSCALL_EXIT: usize = 93;
/// Number of the `write` system call.
pub const SYSCALL_WRITE: usize = 64;
/// File descriptor of standard output.
pub const STDOUT: usize = 1;
/// File descriptor of the debug output.
pub const STDDEBUG: usize = 2;

/// The console device of the kernel; characters put on it go to the firmware's
/// debug console.
pub struct Console;

/// The kernel's handlers for the `write` and `exit` system calls.
pub struct SyscallContext;

/// What the `write` handler does with a request.
#[derive(Clone, Copy, Debug, PartialEq, Eq, Structural)]
pub struct WriteReply {
    /// Print the `count` bytes at the buffer on the console; otherwise the descriptor
    /// is reported as unsupported.
    pub print: bool,
    /// The answer of the call.
    pub ret: isize,
}

impl SyscallContext {
    /// The `write` handler: standard output and the debug output are printed and the
    /// call answers the number of bytes (as an `isize`); any other descriptor is
    /// refused with -1.
    pub fn write(&self, fd: usize, count: usize) -> (reply: WriteReply)
        ensures
            reply.print <==> (fd == STDOUT || fd == STDDEBUG),
            reply.ret == (if reply.print {
                count as isize
            } else {
                -1isize
            }),
    {
        if fd == STDOUT || fd == STDDEBUG {
            WriteReply { print: true, ret: count as isize }
        } else {
            WriteReply { print: false, ret: -1 }
        }
    }

    /// The `exit` handler: it answers 0; the kernel ends the app when it sees the call.
    pub fn exit(&self, status: usize) -> (ret: isize)
        ensures
            ret == 0,
    {
        0
    }
}

/// The registers of a trapped user app that a system call reads and writes: the
/// argument registers `a0` to `a7` and the program counter.
#[derive(Clone, Copy, Debug)]
pub struct SyscallFrame {
    pub a: [usize; 8],
    pub pc: usize,
}

/// The program counter of the instruction after the one at `pc` (instructions are
/// four bytes; the address wraps around).
pub open spec fn next_pc(pc: usize) -> usize {
    if pc + 4 <= usize::MAX {
        (pc + 4) as usize
    } else {
        (pc + 4 - usize::MAX - 1) as usize
    }
}

/// The answer of the system call dispatcher of `tg_syscall` to a request.
#[derive(Clone, Copy, Debug, PartialEq, Eq, Structural)]
pub enum SyscallReply {
    /// The handler ran and returned this value.
    Done(isize),
    /// No handler takes this system call number.
    Unsupported(usize),
}

/// What became of a system call.
#[derive(Clone, Copy, Debug, PartialEq, Eq, Structural)]
pub enum SyscallResult {
    /// The call was answered; the app goes on.
    Done,
    /// The app asked to exit with this code.
    Exit(usize),
    /// The app made an unsupported call with this number.
    Error(usize),
}

/// The system calls of the IO subsystem: write, read, openat, close, linkat, unlinkat,
/// fstat and pipe2.
pub open spec fn io_syscall(id: usize) -> bool {
    id == 64 || id == 63 || id == 56 || id == 57 || id == 37 || id == 35 || id == 80 || id == 59
}

/// The system calls of the Process subsystem: exit, clone, execve, wait4, getpid,
/// spawn and brk.
pub open spec fn process_syscall(id: usize) -> bool {
    id == 93 || id == 220 || id == 221 || id == 260 || id == 172 || id == 400 || id == 214
}

/// The calls that this kernel can take: its IO and Process handlers implement only
/// `write` and `exit`, and a call of another method of those subsystems would reach a
/// handler that does not implement it.
pub open spec fn kernel_serves(id: usize) -> bool {
    !(io_syscall(id) || process_syscall(id)) || id == SYSCALL_WRITE || id == SYSCALL_EXIT
}

/// Whether this kernel can take system call `id` (see [`kernel_serves`]).
pub fn kernel_serves_syscall(id: usize) -> (served: bool)
    ensures
        served == kernel_serves(id),
{
    let io = id == 64 || id == 63 || id == 56 || id == 57 || id == 37 || id == 35 || id == 80
        || id == 59;
    let process = id == 93 || id == 220 || id == 221 || id == 260 || id == 172 || id == 400
        || id == 214;
    !(io || process) || id == SYSCALL_WRITE || id == SYSCALL_EXIT
}

/// A system call as it is handed to the dispatcher: who made it, its number and its
/// six arguments.
#[derive(Clone, Copy, Debug)]
pub struct SyscallRequest {
    pub entity: usize,
    pub flow: usize,
    pub id: usize,
    pub args: [usize; 6],
}

/// The request that a trapped app makes: caller `(0, 0)` (the batch kernel runs one
/// app at a time), the number in `a7`, the arguments in `a0` to `a5`.
pub fn syscall_request(frame: &SyscallFrame) -> (req: SyscallRequest)
    ensures
        req.entity == 0,
        req.flow == 0,
        req.id == frame.a@[7],
        req.args@ == frame.a@.subrange(0, 6),
{
    let req = SyscallRequest {
        entity: 0,
        flow: 0,
        id: frame.a[7],
        args: [frame.a[0], frame.a[1], frame.a[2], frame.a[3], frame.a[4], frame.a[5]],
    };
    assert(req.args@ =~= frame.a@.subrange(0, 6));
    req
}

/// The result of a system call of the app whose registers were `before`, given the
/// dispatcher's `reply`: an answered `exit` ends the app with the code in `a0`, any
/// other answered call is done, and an unsupported call is an error with the number
/// that the dispatcher reported.
pub open spec fn reply_result(before: SyscallFrame, reply: SyscallReply) -> SyscallResult {
    match reply {
        SyscallReply::Done(_) => if before.a@[7] == SYSCALL_EXIT {
            SyscallResult::Exit(before.a@[0])
        } else {
            SyscallResult::Done
        },
        SyscallReply::Unsupported(u) => SyscallResult::Error(u),
    }
}

/// The registers after a system call, given those before and the dispatcher's `reply`:
/// an answered call other than `exit` has its answer in `a0` and moves on to the next
/// instruction; otherwise nothing changes.
pub open spec fn reply_applied(before: SyscallFrame, after: SyscallFrame, reply: SyscallReply) -> bool {
    match reply {
        SyscallReply::Done(ret) => if before.a@[7] == SYSCALL_EXIT {
            after == before
        } else {
            &&& after.a@ == before.a@.update(0, ret as usize)
            &&& after.pc == next_pc(before.pc)
        },
        SyscallReply::Unsupported(_) => after == before,
    }
}

/// An answered `exit` (number 93) always ends the app with the code in `a0`, whatever
/// that code is, and leaves its registers as they were.
pub proof fn lemma_answered_exit_ends_app(before: SyscallFrame, after: SyscallFrame, ret: isize)
    requires
        before.a@[7] == 93,
    ensures
        reply_result(before, SyscallReply::Done(ret)) == SyscallResult::Exit(before.a@[0]),
        reply_applied(before, after, SyscallReply::Done(ret)) <==> after == before,
{
}

/// Any other answered call is done: its answer goes to `a0`, the other registers keep
/// their values, and the app moves four bytes on.
pub proof fn lemma_answered_call_moves_on(before: SyscallFrame, after: SyscallFrame, ret: isize)
    requires
        before.a@[7] != 93,
    ensures
        reply_result(before, SyscallReply::Done(ret)) == SyscallResult::Done,
        reply_applied(before, after, SyscallReply::Done(ret)) <==> (after.a@ == before.a@.update(
            0,
            ret as usize,
        ) && after.pc == next_pc(before.pc)),
{
}

/// An unsupported call is an error with the number that the dispatcher reported, and
/// changes nothing.
pub proof fn lemma_unsupported_call_changes_nothing(before: SyscallFrame, after: SyscallFrame, u: usize)
    ensures
        reply_result(before, SyscallReply::Unsupported(u)) == SyscallResult::Error(u),
        reply_applied(before, after, SyscallReply::Unsupported(u)) <==> after == before,
{
}

/// Applies the dispatcher's `reply` to the system call of the app whose registers are
/// `frame` (the number in `a7`, as [`syscall_request`] handed it over).
pub fn handle_syscall(frame: &mut SyscallFrame, reply: SyscallReply) -> (r: SyscallResult)
    ensures
        r == reply_result(*old(frame), reply),
        reply_applied(*old(frame), *final(frame), reply),
        reply matches SyscallReply::Done(_) && old(frame).a@[7] == 93 ==> r == SyscallResult::Exit(
            old(frame).a@[0],
        ) && *final(frame) == *old(frame),
        reply matches SyscallReply::Done(ret) ==> (old(frame).a@[7] != 93 ==> {
            &&& r == SyscallResult::Done
            &&& final(frame).a@ == old(frame).a@.update(0, ret as usize)
            &&& final(frame).pc == next_pc(old(frame).pc)
        }),
        reply matches SyscallReply::Unsupported(u) ==> r == SyscallResult::Error(u) && *final(frame)
            == *old(frame),
{
    match reply {
        SyscallReply::Done(ret) => {
            if frame.a[7] == SYSCALL_EXIT {
                SyscallResult::Exit(frame.a[0])
            } else {
                frame.a[0] = ret as usize;
                frame.pc = frame.pc.wrapping_add(4);
                SyscallResult::Done
            }
        },
        SyscallReply::Unsupported(u) => SyscallResult::Error(u),
    }
}

} // verus!
