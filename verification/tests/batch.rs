use tg_rcore_tutorial::batch::{
    after_trap, final_action, pause, FinalAction, plan_app, tangram_enabled, AppPlan, AppStep,
    TrapEvent, FRAME_PAUSE_SPINS, TANGRAM_CASE_GROUP,
};
use tg_rcore_tutorial::framebuffer::TangramStage;
use tg_rcore_tutorial::syscall::{SyscallFrame, SyscallReply};
use tg_rcore_tutorial::tangram::Shape;

#[test]
fn tangram_runs_only_for_the_ch2_group() {
    assert!(tangram_enabled(Some("ch2")));
    assert!(tangram_enabled(Some(TANGRAM_CASE_GROUP)));
    assert!(!tangram_enabled(None));
    assert!(!tangram_enabled(Some("ch1")));
    assert!(!tangram_enabled(Some("ch22")));
    assert!(!tangram_enabled(Some("ch")));
    assert!(!tangram_enabled(Some("")));
    assert!(!tangram_enabled(Some("CH2")));
}

#[test]
fn plan_draws_when_there_is_a_framebuffer_and_pauses_either_way() {
    assert_eq!(
        plan_app(true, true, 3),
        AppPlan {
            stage: Some(TangramStage { shape: Shape::O, visible_pieces: 4 }),
            pause_spins: FRAME_PAUSE_SPINS
        }
    );
    assert_eq!(plan_app(true, false, 8), AppPlan { stage: None, pause_spins: FRAME_PAUSE_SPINS });
    assert_eq!(plan_app(true, true, 14), AppPlan { stage: None, pause_spins: 0 });
    assert_eq!(plan_app(false, true, 0), AppPlan { stage: None, pause_spins: 0 });
}

#[test]
fn demo_holds_the_last_frame_instead_of_shutting_down() {
    assert_eq!(final_action(true), FinalAction::HoldFrame);
    assert_eq!(final_action(false), FinalAction::Shutdown);
    assert_eq!(FRAME_PAUSE_SPINS, 30_000_000);
}

#[test]
fn pause_returns() {
    pause(0);
    pause(10_000);
}

#[test]
fn panic_shuts_down_as_a_failure() {
    assert!(tg_rcore_tutorial::batch::panic());
}

#[test]
fn other_traps_kill_the_app() {
    let mut f = SyscallFrame { a: [1, 2, 3, 4, 5, 6, 7, 64], pc: 0x100 };
    assert_eq!(after_trap(&mut f, TrapEvent::Other), AppStep::Killed);
    assert_eq!(f.a, [1, 2, 3, 4, 5, 6, 7, 64]);
    assert_eq!(f.pc, 0x100);
}

#[test]
fn unsupported_syscall_stops_the_app() {
    let mut f = SyscallFrame { a: [0, 0, 0, 0, 0, 0, 0, 12345], pc: 0x100 };
    assert_eq!(after_trap(&mut f, TrapEvent::Syscall(SyscallReply::Unsupported(12345))), AppStep::UnsupportedSyscall(12345));
    assert_eq!(f.pc, 0x100);
}

#[test]
fn answered_syscall_resumes_the_app() {
    let mut f = SyscallFrame { a: [0, 0, 0, 0, 0, 0, 0, 64], pc: 0x100 };
    assert_eq!(after_trap(&mut f, TrapEvent::Syscall(SyscallReply::Done(3))), AppStep::Resume);
    assert_eq!(f.a[0], 3);
    assert_eq!(f.pc, 0x104);
}

#[test]
fn answered_exit_ends_the_app() {
    let mut f = SyscallFrame { a: [9, 0, 0, 0, 0, 0, 0, 93], pc: 0x100 };
    assert_eq!(after_trap(&mut f, TrapEvent::Syscall(SyscallReply::Done(0))), AppStep::Exited(9));
    assert_eq!(f.pc, 0x100);
}
