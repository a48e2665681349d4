use ucontext::context::{Context, HandlerContext};
use ucontext::frame::{swap_frames, Frame, Layout};
use ucontext::token::IdTable;

const LAYOUT: Layout = Layout { size: 936, fpregs_offset: 424 };

fn moved(base: usize, to: usize) -> Frame {
    let mut f = Frame::captured(base, LAYOUT, vec![1, 2, 3]);
    f.relocate(to);
    f
}

#[test]
fn context_moveinvariant() {
    let mut context = moved(0x1000, 0x8000);
    assert!(!context.holds(context.fpregs));
    context.after_move();
    assert!(context.holds(context.fpregs));
}

#[test]
fn context_swapinvariant() {
    let mut ids = IdTable::new();
    let mut first = Context::default(&mut ids, moved(0x1000, 0x8000));
    let mut second = HandlerContext(moved(0x3000, 0xa000));
    {
        let first = &mut first.context;
        let second = &mut second.0;
        assert!(!first.holds(first.fpregs));
        assert!(!second.holds(second.fpregs));

        first.after_move();
        second.after_move();
        first.link = first.fpregs;
        second.link = second.fpregs;
        assert!(first.holds(first.link));
        assert!(second.holds(second.link));
    }
    first.swap(&mut second);

    let first = &first.context;
    let second = &second.0;
    assert!(first.holds(first.fpregs));
    assert!(second.holds(second.fpregs));
    assert!(second.holds(first.link));
    assert!(first.holds(second.link));
}

#[test]
fn captured_storage_points_into_itself() {
    let f = Frame::captured(0x2000, LAYOUT, Vec::new());
    assert_eq!(f.fpregs, 0x2000 + 424);
    assert!(f.holds(f.fpregs));
    assert_eq!(f.link, 0);
    assert!(f.bound.is_none());
}

#[test]
fn fixup_is_idempotent_in_place() {
    let mut f = Frame::captured(0x2000, LAYOUT, vec![9]);
    f.after_move();
    assert_eq!(f.fpregs, 0x2000 + 424);
    f.after_move();
    assert_eq!(f.fpregs, 0x2000 + 424);
    assert_eq!(f.regs, vec![9]);
}

#[test]
fn fixup_after_move_targets_new_place_only() {
    let mut f = moved(0x1000, 0x8000);
    assert_eq!(f.fpregs, 0x1000 + 424);
    f.after_move();
    assert_eq!(f.fpregs, 0x8000 + 424);
    let old_place = Frame::captured(0x1000, LAYOUT, Vec::new());
    assert!(!old_place.holds(f.fpregs));
}

#[test]
fn holds_excludes_both_ends() {
    let f = Frame::captured(0x2000, LAYOUT, Vec::new());
    assert!(!f.holds(0x2000));
    assert!(f.holds(0x2001));
    assert!(f.holds(0x2000 + 935));
    assert!(!f.holds(0x2000 + 936));
}

#[test]
fn swap_exchanges_state_and_keeps_addresses() {
    let mut a = Frame::captured(0x1000, LAYOUT, vec![1, 1]);
    let mut b = Frame::captured(0x5000, LAYOUT, vec![2]);
    a.link = 0x7777;
    swap_frames(&mut a, &mut b);
    assert_eq!(a.base, 0x1000);
    assert_eq!(b.base, 0x5000);
    assert_eq!(a.regs, vec![2]);
    assert_eq!(b.regs, vec![1, 1]);
    assert_eq!(a.link, 0);
    assert_eq!(b.link, 0x7777);
    assert_eq!(a.fpregs, 0x1000 + 424);
    assert_eq!(b.fpregs, 0x5000 + 424);
}
