//! Mouse buttons and the VNC button mask.

use vstd::prelude::*;

verus! {

/// A mouse button as QEMU's display interface knows it.
#[derive(Debug, Clone, Copy, PartialEq, Eq, Structural, Hash)]
pub enum MouseButton {
    Left,
    Middle,
    Right,
    WheelUp,
    WheelDown,
}

/// The bit of a VNC pointer-event button mask that stands for `b`.
pub open spec fn button_bit(b: MouseButton) -> u8 {
    match b {
        MouseButton::Left => 1u8,
        MouseButton::Middle => 2u8,
        MouseButton::Right => 4u8,
        MouseButton::WheelUp => 8u8,
        MouseButton::WheelDown => 16u8,
    }
}

/// The buttons that a VNC button mask holds down.
pub open spec fn mask_buttons(mask: u8) -> Set<MouseButton> {
    Set::new(|b: MouseButton| mask & button_bit(b) != 0)
}

/// `[b]` when `present`, else nothing.
pub open spec fn button_if(present: bool, b: MouseButton) -> Seq<MouseButton> {
    if present {
        seq![b]
    } else {
        Seq::empty()
    }
}

/// The members of a set of buttons, each once, in the order
/// Left, Middle, Right, WheelUp, WheelDown.
pub open spec fn ordered_buttons(s: Set<MouseButton>) -> Seq<MouseButton> {
    button_if(s.contains(MouseButton::Left), MouseButton::Left)
        + button_if(s.contains(MouseButton::Middle), MouseButton::Middle)
        + button_if(s.contains(MouseButton::Right), MouseButton::Right)
        + button_if(s.contains(MouseButton::WheelUp), MouseButton::WheelUp)
        + button_if(s.contains(MouseButton::WheelDown), MouseButton::WheelDown)
}

/// The canonical list of a set holds exactly the set's members.
#[verifier::spinoff_prover]
#[verifier::rlimit(40)]
pub proof fn lemma_ordered_buttons_members(s: Set<MouseButton>)
    ensures
        ordered_buttons(s).to_set() == s,
        forall|b: MouseButton| #[trigger] ordered_buttons(s).contains(b) <==> s.contains(b),
{
    let o = ordered_buttons(s);
    assert forall|b: MouseButton| #[trigger] o.contains(b) <==> s.contains(b) by {
        let p0 = button_if(s.contains(MouseButton::Left), MouseButton::Left);
        let p1 = button_if(s.contains(MouseButton::Middle), MouseButton::Middle);
        let p2 = button_if(s.contains(MouseButton::Right), MouseButton::Right);
        let p3 = button_if(s.contains(MouseButton::WheelUp), MouseButton::WheelUp);
        let p4 = button_if(s.contains(MouseButton::WheelDown), MouseButton::WheelDown);
        if s.contains(b) {
            let i: int = match b {
                MouseButton::Left => 0,
                MouseButton::Middle => p0.len() as int,
                MouseButton::Right => (p0.len() + p1.len()) as int,
                MouseButton::WheelUp => (p0.len() + p1.len() + p2.len()) as int,
                MouseButton::WheelDown => (p0.len() + p1.len() + p2.len() + p3.len()) as int,
            };
            assert(o[i] == b);
        }
        if o.contains(b) {
            let i = choose|i: int| 0 <= i < o.len() && o[i] == b;
            assert(o[i] == b);
        }
    }
    assert(o.to_set() =~= s) by {
        broadcast use vstd::seq_lib::group_seq_properties;
    }
}

/// The place of a button in button order.
pub open spec fn button_rank(b: MouseButton) -> int {
    match b {
        MouseButton::Left => 0,
        MouseButton::Middle => 1,
        MouseButton::Right => 2,
        MouseButton::WheelUp => 3,
        MouseButton::WheelDown => 4,
    }
}

/// The canonical list of a set names each member once.
pub proof fn law_ordered_buttons_no_duplicates(s: Set<MouseButton>)
    ensures
        ordered_buttons(s).no_duplicates(),
{
    let o = ordered_buttons(s);
    let p0 = button_if(s.contains(MouseButton::Left), MouseButton::Left);
    let p1 = button_if(s.contains(MouseButton::Middle), MouseButton::Middle);
    let p2 = button_if(s.contains(MouseButton::Right), MouseButton::Right);
    let p3 = button_if(s.contains(MouseButton::WheelUp), MouseButton::WheelUp);
    let p4 = button_if(s.contains(MouseButton::WheelDown), MouseButton::WheelDown);
    assert forall|i: int, j: int| 0 <= i < j < o.len() implies button_rank(o[i]) < button_rank(o[j]) by {
        let l0 = p0.len() as int;
        let l1 = l0 + p1.len();
        let l2 = l1 + p2.len();
        let l3 = l2 + p3.len();
        assert(o =~= p0 + p1 + p2 + p3 + p4);
        assert(forall|k: int| 0 <= k < l0 ==> button_rank(#[trigger] o[k]) == 0);
        assert(forall|k: int| l0 <= k < l1 ==> button_rank(#[trigger] o[k]) == 1);
        assert(forall|k: int| l1 <= k < l2 ==> button_rank(#[trigger] o[k]) == 2);
        assert(forall|k: int| l2 <= k < l3 ==> button_rank(#[trigger] o[k]) == 3);
        assert(forall|k: int| l3 <= k < o.len() ==> button_rank(#[trigger] o[k]) == 4);
    }
    assert forall|i: int, j: int| 0 <= i < o.len() && 0 <= j < o.len() && i != j implies o[i] != o[j] by {
        if i < j {
            assert(button_rank(o[i]) < button_rank(o[j]));
        } else {
            assert(button_rank(o[j]) < button_rank(o[i]));
        }
    }
}

/// A pointer event's presses and releases take the buttons held before it to
/// exactly those of its mask: the pressed buttons were up, the released ones
/// were down, and no button is both pressed and released.
pub proof fn law_pointer_buttons(old: Set<MouseButton>, mask: u8)
    ensures
        ({
            let new = mask_buttons(mask);
            let pressed = ordered_buttons(new.difference(old)).to_set();
            let released = ordered_buttons(old.difference(new)).to_set();
            &&& old.union(pressed).difference(released) == new
            &&& pressed.disjoint(old)
            &&& released.subset_of(old)
            &&& pressed.disjoint(released)
        }),
{
    let new = mask_buttons(mask);
    lemma_ordered_buttons_members(new.difference(old));
    lemma_ordered_buttons_members(old.difference(new));
    let pressed = ordered_buttons(new.difference(old)).to_set();
    let released = ordered_buttons(old.difference(new)).to_set();
    assert(old.union(pressed).difference(released) =~= new);
    assert(pressed.disjoint(old));
    assert(pressed.disjoint(released));
}

fn push_if(v: &mut Vec<MouseButton>, present: bool, b: MouseButton)
    ensures
        final(v)@ == old(v)@ + button_if(present, b),
{
    if present {
        v.push(b);
    }
    assert(final(v)@ =~= old(v)@ + button_if(present, b));
}

/// Builds the canonical list of the buttons for which the flags are set.
fn buttons_from_flags(l: bool, m: bool, r: bool, u: bool, d: bool) -> (res: Vec<MouseButton>)
    ensures
        res@ == button_if(l, MouseButton::Left) + button_if(m, MouseButton::Middle)
            + button_if(r, MouseButton::Right) + button_if(u, MouseButton::WheelUp)
            + button_if(d, MouseButton::WheelDown),
{
    let mut v: Vec<MouseButton> = Vec::new();
    push_if(&mut v, l, MouseButton::Left);
    push_if(&mut v, m, MouseButton::Middle);
    push_if(&mut v, r, MouseButton::Right);
    push_if(&mut v, u, MouseButton::WheelUp);
    push_if(&mut v, d, MouseButton::WheelDown);
    assert(v@ =~= button_if(l, MouseButton::Left) + button_if(m, MouseButton::Middle)
        + button_if(r, MouseButton::Right) + button_if(u, MouseButton::WheelUp)
        + button_if(d, MouseButton::WheelDown));
    v
}

/// The buttons that a VNC pointer event's button mask holds down, each once,
/// in button order. Bits above the fifth stand for no button.
pub fn button_mask_to_set(mask: u8) -> (res: Vec<MouseButton>)
    ensures
        res@ == ordered_buttons(mask_buttons(mask)),
{
    let res = buttons_from_flags(
        mask & 1u8 != 0,
        mask & 2u8 != 0,
        mask & 4u8 != 0,
        mask & 8u8 != 0,
        mask & 16u8 != 0,
    );
    proof {
        let s = mask_buttons(mask);
        assert(s.contains(MouseButton::Left) == (mask & 1u8 != 0));
        assert(s.contains(MouseButton::Middle) == (mask & 2u8 != 0));
        assert(s.contains(MouseButton::Right) == (mask & 4u8 != 0));
        assert(s.contains(MouseButton::WheelUp) == (mask & 8u8 != 0));
        assert(s.contains(MouseButton::WheelDown) == (mask & 16u8 != 0));
    }
    res
}

/// Whether `b` is in the list.
pub fn has_button(v: &Vec<MouseButton>, b: MouseButton) -> (res: bool)
    ensures
        res == v@.contains(b),
{
    let mut i: usize = 0;
    while i < v.len()
        invariant
            i <= v@.len(),
            forall|j: int| 0 <= j < i ==> v@[j] != b,
        decreases v@.len() - i,
    {
        if v[i] == b {
            return true;
        }
        i = i + 1;
    }
    false
}

/// The buttons of `a` that are not in `b`, each once, in button order.
pub fn button_difference(a: &Vec<MouseButton>, b: &Vec<MouseButton>) -> (res: Vec<MouseButton>)
    ensures
        res@ == ordered_buttons(a@.to_set().difference(b@.to_set())),
{
    let l = has_button(a, MouseButton::Left) && !has_button(b, MouseButton::Left);
    let m = has_button(a, MouseButton::Middle) && !has_button(b, MouseButton::Middle);
    let r = has_button(a, MouseButton::Right) && !has_button(b, MouseButton::Right);
    let u = has_button(a, MouseButton::WheelUp) && !has_button(b, MouseButton::WheelUp);
    let d = has_button(a, MouseButton::WheelDown) && !has_button(b, MouseButton::WheelDown);
    let res = buttons_from_flags(l, m, r, u, d);
    proof {
        let s = a@.to_set().difference(b@.to_set());
        broadcast use vstd::seq_lib::group_seq_properties;
        assert(s.contains(MouseButton::Left) == l);
        assert(s.contains(MouseButton::Middle) == m);
        assert(s.contains(MouseButton::Right) == r);
        assert(s.contains(MouseButton::WheelUp) == u);
        assert(s.contains(MouseButton::WheelDown) == d);
    }
    res
}

} // verus!
