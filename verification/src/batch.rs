//! The decisions of the batch kernel: whether the tangram demo runs, what is shown
//! and how long the kernel waits around each app, and what happens after an app
//! traps into the kernel.
use vstd::prelude::*;
use vstd::string::StrSliceExecFns;
use crate::framebuffer::{TangramStage, stage_for_app, stage_for_app_spec};
use crate::syscall::{
    SyscallFrame, SyscallReply, SyscallResult, handle_syscall, reply_applied, reply_result,
};

verus! {

/// The test group whose selection turns the tangram demo on.
pub const TANGRAM_CASE_GROUP: &'static str = "ch2";
/// Spins to wait after each app of the demo, so that its frame can be seen.
pub const FRAME_PAUSE_SPINS: usize = 30_000_000;

/// The tangram demo runs when the selected test group is `ch2`.
pub fn tangram_enabled(selected: Option<&str>) -> (enabled: bool)
    ensures
        enabled <==> (selected is Some && selected->0@ == "ch2"@),
{
    proof {
        reveal_strlit("ch2");
    }
    match selected {
        None => false,
        Some(group) => {
            if group.unicode_len() != 3 {
                return false;
            }
            let same = group.get_char(0) == 'c' && group.get_char(1) == 'h' && group.get_char(2) == '2';
            proof {
                if same {
                    assert(group@ =~= "ch2"@);
                } else {
                    assert(group@ != "ch2"@) by {
                        if group@ == "ch2"@ {
                            assert(group@[0] == 'c');
                            assert(group@[1] == 'h');
                            assert(group@[2] == '2');
                        }
                    }
                }
            }
            same
        },
    }
}

/// What the kernel does around one app of the batch.
#[derive(Clone, Copy, Debug, PartialEq, Eq, Structural)]
pub struct AppPlan {
    /// The tangram stage to draw before the app runs, if any.
    pub stage: Option<TangramStage>,
    /// Spins to wait after the app has finished.
    pub pause_spins: usize,
}

/// The plan for app `app_index`: with the demo on, its stage is drawn when there is a
/// framebuffer, and the kernel pauses after every app that has a stage, framebuffer
/// or not; with the demo off nothing is drawn and there is no pause.
pub fn plan_app(tangram_enabled: bool, framebuffer_ready: bool, app_index: usize) -> (plan: AppPlan)
    ensures
        plan.stage == (if tangram_enabled && framebuffer_ready {
            stage_for_app_spec(app_index)
        } else {
            None
        }),
        plan.pause_spins == (if tangram_enabled && stage_for_app_spec(app_index) is Some {
            FRAME_PAUSE_SPINS
        } else {
            0
        }),
{
    let stage = stage_for_app(app_index);
    let pause_spins = if tangram_enabled && stage.is_some() {
        FRAME_PAUSE_SPINS
    } else {
        0
    };
    let shown = if tangram_enabled && framebuffer_ready {
        stage
    } else {
        None
    };
    AppPlan { stage: shown, pause_spins }
}

/// How the kernel ends once every app has run.
#[derive(Clone, Copy, Debug, PartialEq, Eq, Structural)]
pub enum FinalAction {
    /// Keep spinning, never shutting down, so that the last tangram frame stays shown.
    HoldFrame,
    /// Shut the machine down normally.
    Shutdown,
}

/// How the kernel ends: with the tangram demo on it holds the last frame on screen for
/// good; otherwise it shuts down.
pub fn final_action(tangram_enabled: bool) -> (action: FinalAction)
    ensures
        action == (if tangram_enabled {
            FinalAction::HoldFrame
        } else {
            FinalAction::Shutdown
        }),
{
    if tangram_enabled {
        FinalAction::HoldFrame
    } else {
        FinalAction::Shutdown
    }
}

/// Tells the processor that the caller is in a spin-wait loop
/// (`core::hint::spin_loop`).
#[verifier::external_body]
fn spin_hint() {
    core::hint::spin_loop();
}

/// Busy-waits for `spins` rounds of the spin-wait hint.
pub fn pause(spins: usize) {
    let mut i: usize = 0;
    while i < spins
        invariant
            i <= spins,
        decreases spins - i,
    {
        spin_hint();
        i = i + 1;
    }
}

/// How a panic ends the kernel: after reporting the panic, the machine is shut down
/// as a failure. The result is the failure flag handed to the shutdown call.
pub fn panic() -> (failure: bool)
    ensures
        failure,
{
    true
}

/// Why an app trapped into the kernel.
#[derive(Clone, Copy, Debug, PartialEq, Eq, Structural)]
pub enum TrapEvent {
    /// The app made a system call, and the dispatcher answered the request that
    /// [`syscall_request`](crate::syscall::syscall_request) built with this reply.
    Syscall(SyscallReply),
    /// Any other exception or interrupt.
    Other,
}

/// What the kernel does after a trap.
#[derive(Clone, Copy, Debug, PartialEq, Eq, Structural)]
pub enum AppStep {
    /// Run the app again.
    Resume,
    /// The app exited with this code.
    Exited(usize),
    /// The app made this unsupported system call and is stopped.
    UnsupportedSyscall(usize),
    /// The app trapped for another reason and is killed.
    Killed,
}

/// The step that follows a system call with result `r`: an answered call resumes the
/// app, an exit ends it with its code, and an unsupported call stops it.
pub open spec fn step_after_syscall(r: SyscallResult) -> AppStep {
    match r {
        SyscallResult::Done => AppStep::Resume,
        SyscallResult::Exit(code) => AppStep::Exited(code),
        SyscallResult::Error(id) => AppStep::UnsupportedSyscall(id),
    }
}

/// Handles a trap of the app whose registers are `frame`: for a system call the reply
/// is applied by [`handle_syscall`], and the app resumes exactly when the call was
/// answered, stops with its exit code when it exited, and stops when the call was
/// unsupported; any other trap kills the app and changes nothing.
pub fn after_trap(frame: &mut SyscallFrame, event: TrapEvent) -> (step: AppStep)
    ensures
        event == TrapEvent::Other ==> step == AppStep::Killed && *final(frame) == *old(frame),
        event matches TrapEvent::Syscall(reply) ==> step == step_after_syscall(
            reply_result(*old(frame), reply),
        ) && reply_applied(*old(frame), *final(frame), reply),
        event matches TrapEvent::Syscall(SyscallReply::Done(_)) && old(frame).a@[7] == 93 ==> step
            == AppStep::Exited(old(frame).a@[0]) && *final(frame) == *old(frame),
        event matches TrapEvent::Syscall(SyscallReply::Done(_)) && old(frame).a@[7] != 93 ==> step
            == AppStep::Resume,
        event matches TrapEvent::Syscall(SyscallReply::Unsupported(u)) ==> step
            == AppStep::UnsupportedSyscall(u) && *final(frame) == *old(frame),
{
    match event {
        TrapEvent::Syscall(reply) => match handle_syscall(frame, reply) {
            SyscallResult::Done => AppStep::Resume,
            SyscallResult::Exit(code) => AppStep::Exited(code),
            SyscallResult::Error(id) => AppStep::UnsupportedSyscall(id),
        },
        TrapEvent::Other => AppStep::Killed,
    }
}

} // verus!
