//! The decisions of a VNC client session: which framebuffer updates to
//! send, and which keyboard and mouse input to forward to the guest.

use vstd::prelude::*;
use crate::image::Rect;
use crate::mouse::{
    button_difference, button_mask_to_set, lemma_ordered_buttons_members, mask_buttons,
    ordered_buttons, MouseButton,
};

verus! {

/// What a VNC client sends.
#[derive(Debug, Clone, Copy, PartialEq, Eq)]
pub enum VncEvent {
    FramebufferUpdateRequest { incremental: bool, x_position: u16, y_position: u16, width: u16, height: u16 },
    KeyEvent { down: bool, key: u32 },
    PointerEvent { button_mask: u8, x_position: u16, y_position: u16 },
    /// Any other client message; it is not acted on.
    Other,
}

/// What a client session waits for.
#[derive(Debug, Clone, Copy, PartialEq, Eq)]
pub enum Event {
    /// The console painted this rectangle of the framebuffer.
    ConsoleUpdate(Rect),
    /// The client sent a message.
    Vnc(VncEvent),
    /// The client went away.
    Disconnected,
}

/// What the session asks to be done, in order.
#[derive(Debug, Clone, Copy, PartialEq, Eq)]
pub enum ClientAction {
    /// Send the whole framebuffer to the client.
    SendFramebufferUpdate,
    /// Press the key of this QEMU key number.
    KeyPress(u32),
    /// Release the key of this QEMU key number.
    KeyRelease(u32),
    MousePress(MouseButton),
    MouseRelease(MouseButton),
    /// Move the mouse to this absolute position.
    MouseSetAbsPosition(u32, u32),
}

/// The state of a client session. The state that the asked actions lead to
/// once all of them are done is kept apart until `actions_done` commits it.
pub struct Client {
    share: bool,
    has_update: bool,
    req_update: bool,
    last_buttons: Vec<MouseButton>,
    next_has_update: bool,
    next_req_update: bool,
    next_buttons: Option<Vec<MouseButton>>,
}

/// What a session state is: whether the display is shared, whether the
/// framebuffer changed since it was last sent, whether the client asked for
/// it, and which mouse buttons the client holds down.
pub struct ClientView {
    pub share: bool,
    pub has_update: bool,
    pub req_update: bool,
    pub last_buttons: Set<MouseButton>,
}

impl View for Client {
    type V = ClientView;

    closed spec fn view(&self) -> ClientView {
        ClientView {
            share: self.share,
            has_update: self.has_update,
            req_update: self.req_update,
            last_buttons: self.last_buttons@.to_set(),
        }
    }
}

impl Client {
    /// The state the session comes to once the actions it last asked for are
    /// all done.
    pub closed spec fn after_actions(&self) -> ClientView {
        ClientView {
            share: self.share,
            has_update: self.next_has_update,
            req_update: self.next_req_update,
            last_buttons: match self.next_buttons {
                Some(v) => v@.to_set(),
                None => self.last_buttons@.to_set(),
            },
        }
    }
}

/// Whether a framebuffer update is owed: the framebuffer changed and the
/// client asked for it.
pub open spec fn update_owed(s: ClientView) -> bool {
    s.has_update && s.req_update
}

/// Sends the framebuffer if an update is owed, and then owes none.
pub open spec fn flush(s: ClientView) -> (ClientView, Seq<ClientAction>) {
    if update_owed(s) {
        (
            ClientView { share: s.share, has_update: false, req_update: false, last_buttons: s.last_buttons },
            seq![ClientAction::SendFramebufferUpdate],
        )
    } else {
        (s, Seq::empty())
    }
}

pub open spec fn presses(bs: Seq<MouseButton>) -> Seq<ClientAction> {
    bs.map_values(|b: MouseButton| ClientAction::MousePress(b))
}

pub open spec fn releases(bs: Seq<MouseButton>) -> Seq<ClientAction> {
    bs.map_values(|b: MouseButton| ClientAction::MouseRelease(b))
}

/// The key action for a key event: the keysym is looked up in `keymap`
/// (keysym to QEMU key number); a keysym past its end is ignored.
pub open spec fn key_actions(down: bool, key: u32, keymap: Seq<u16>) -> Seq<ClientAction> {
    if key < keymap.len() {
        if down {
            seq![ClientAction::KeyPress(keymap[key as int] as u32)]
        } else {
            seq![ClientAction::KeyRelease(keymap[key as int] as u32)]
        }
    } else {
        Seq::empty()
    }
}

/// A pointer event: the buttons newly held are pressed, the buttons no longer
/// held are released (each in button order), then the mouse moves.
pub open spec fn pointer_actions(old: Set<MouseButton>, mask: u8, x: u16, y: u16) -> Seq<ClientAction> {
    let new = mask_buttons(mask);
    presses(ordered_buttons(new.difference(old))) + releases(ordered_buttons(old.difference(new)))
        + seq![ClientAction::MouseSetAbsPosition(x as u32, y as u32)]
}

/// The session's answer to a client message.
pub open spec fn vnc_step(s: ClientView, e: VncEvent, keymap: Seq<u16>) -> (ClientView, Seq<ClientAction>) {
    match e {
        VncEvent::FramebufferUpdateRequest { .. } => flush(
            ClientView { share: s.share, has_update: s.has_update, req_update: true, last_buttons: s.last_buttons },
        ),
        VncEvent::KeyEvent { down, key } => (s, key_actions(down, key, keymap)),
        VncEvent::PointerEvent { button_mask, x_position, y_position } => (
            ClientView { share: s.share, has_update: s.has_update, req_update: s.req_update, last_buttons: mask_buttons(button_mask) },
            pointer_actions(s.last_buttons, button_mask, x_position, y_position),
        ),
        VncEvent::Other => (s, Seq::empty()),
    }
}

/// The state in which the session performs a client message's actions: an
/// update request is taken note of before the framebuffer is sent.
pub open spec fn vnc_pre(s: ClientView, e: VncEvent) -> ClientView {
    match e {
        VncEvent::FramebufferUpdateRequest { .. } => ClientView {
            share: s.share,
            has_update: s.has_update,
            req_update: true,
            last_buttons: s.last_buttons,
        },
        _ => s,
    }
}

/// The state in which the session performs the actions for what it waited
/// for.
pub open spec fn event_pre(s: ClientView, e: Option<Event>) -> ClientView {
    match e {
        Some(Event::Vnc(v)) => vnc_pre(s, v),
        Some(Event::ConsoleUpdate(_)) => event_step(s, e, Seq::empty()).1,
        _ => s,
    }
}

/// The session's answer to what it waited for (`None`: nothing came in time):
/// whether it goes on, its next state, and what it asks to be done.
pub open spec fn event_step(s: ClientView, e: Option<Event>, keymap: Seq<u16>) -> (bool, ClientView, Seq<ClientAction>) {
    match e {
        Some(Event::Vnc(v)) => (true, vnc_step(s, v, keymap).0, vnc_step(s, v, keymap).1),
        Some(Event::ConsoleUpdate(_)) => (
            true,
            ClientView { share: s.share, has_update: true, req_update: s.req_update, last_buttons: s.last_buttons },
            Seq::empty(),
        ),
        Some(Event::Disconnected) => (false, s, Seq::empty()),
        None => (true, flush(s).0, flush(s).1),
    }
}

/// Whether a session event is a framebuffer update request from the client.
pub open spec fn is_update_request(e: Option<Event>) -> bool {
    e matches Some(Event::Vnc(VncEvent::FramebufferUpdateRequest { .. }))
}

/// Of the state that a session event's actions lead to, once done: the
/// framebuffer is sent exactly when an update is owed at a point where
/// the session flushes (a client's update request, or a wait that timed
/// out), and such a point leaves no update owed; a console update only marks
/// the framebuffer changed; a disconnection ends the session and changes
/// nothing; every other event lets the session go on.
pub proof fn law_update_sent_exactly_when_owed(s: ClientView, e: Option<Event>, keymap: Seq<u16>)
    ensures
        ({
            let (go, s2, acts) = event_step(s, e, keymap);
            &&& acts.contains(ClientAction::SendFramebufferUpdate) <==> (
                (is_update_request(e) && s.has_update) || (e is None && update_owed(s)))
            &&& (is_update_request(e) || e is None) ==> !update_owed(s2)
            &&& (e matches Some(Event::ConsoleUpdate(_))) ==> s2.has_update && acts.len() == 0
            &&& go <==> e != Some(Event::Disconnected)
            &&& e == Some(Event::Disconnected) ==> s2 == s && acts.len() == 0
            &&& s2.share == s.share
        }),
{
    let (go, s2, acts) = event_step(s, e, keymap);
    let send = ClientAction::SendFramebufferUpdate;
    match e {
        Some(Event::Vnc(VncEvent::KeyEvent { down, key })) => {
            assert(!key_actions(down, key, keymap).contains(send));
        },
        Some(Event::Vnc(VncEvent::PointerEvent { button_mask, x_position, y_position })) => {
            let new = mask_buttons(button_mask);
            let p = presses(ordered_buttons(new.difference(s.last_buttons)));
            let r = releases(ordered_buttons(s.last_buttons.difference(new)));
            let m = seq![ClientAction::MouseSetAbsPosition(x_position as u32, y_position as u32)];
            assert(acts =~= p + r + m);
            assert forall|i: int| 0 <= i < acts.len() implies acts[i] != send by {
                if i < p.len() {
                    assert(acts[i] == p[i]);
                } else if i < p.len() + r.len() {
                    assert(acts[i] == r[i - p.len()]);
                } else {
                    assert(acts[i] == m[i - p.len() - r.len()]);
                }
            }
        },
        Some(Event::Vnc(VncEvent::FramebufferUpdateRequest { .. })) => {
            if s.has_update {
                assert(acts[0] == send);
            }
        },
        None => {
            if update_owed(s) {
                assert(acts[0] == send);
            }
        },
        _ => {},
    }
}

/// Sending the framebuffer uses the client's request up: once sent, nothing
/// is changed nor asked for, so a later console change alone owes no update,
/// and a wait that times out then sends nothing.
pub proof fn law_request_answered_once(s: ClientView, r: Rect, keymap: Seq<u16>)
    requires
        update_owed(s),
    ensures
        flush(s).1 == seq![ClientAction::SendFramebufferUpdate],
        !flush(s).0.req_update,
        !flush(s).0.has_update,
        ({
            let changed = event_step(flush(s).0, Some(Event::ConsoleUpdate(r)), keymap).1;
            &&& !update_owed(changed)
            &&& event_step(changed, None, keymap).2.len() == 0
        }),
{
}

/// A pointer event ends with a move to the event's own coordinates, as
/// given, whatever the buttons did.
pub proof fn law_pointer_moves_to_event_position(s: ClientView, button_mask: u8, x: u16, y: u16, keymap: Seq<u16>)
    ensures
        ({
            let acts = vnc_step(s, VncEvent::PointerEvent { button_mask, x_position: x, y_position: y }, keymap).1;
            &&& acts.len() >= 1
            &&& acts.last() matches ClientAction::MouseSetAbsPosition(px, py) && px == x && py == y
        }),
{
}

/// A key event presses or releases the key that the keymap gives for the
/// whole keysym, and nothing for a keysym the keymap does not cover.
pub proof fn law_key_event_uses_whole_keysym(s: ClientView, down: bool, key: u32, keymap: Seq<u16>)
    ensures
        ({
            let (next, acts) = vnc_step(s, VncEvent::KeyEvent { down, key }, keymap);
            &&& next == s
            &&& key < keymap.len() ==> acts.len() == 1 && (if down {
                acts[0] matches ClientAction::KeyPress(q) && q == keymap[key as int]
            } else {
                acts[0] matches ClientAction::KeyRelease(q) && q == keymap[key as int]
            })
            &&& key >= keymap.len() ==> acts.len() == 0
        }),
{
}

fn push_buttons(actions: &mut Vec<ClientAction>, bs: &Vec<MouseButton>, press: bool)
    ensures
        final(actions)@ == old(actions)@ + (if press { presses(bs@) } else { releases(bs@) }),
{
    let ghost start = actions@;
    let mut i: usize = 0;
    while i < bs.len()
        invariant
            i <= bs@.len(),
            actions@ == start + (if press { presses(bs@.take(i as int)) } else { releases(bs@.take(i as int)) }),
        decreases bs@.len() - i,
    {
        let b = bs[i];
        if press {
            actions.push(ClientAction::MousePress(b));
        } else {
            actions.push(ClientAction::MouseRelease(b));
        }
        proof {
            assert(bs@.take(i + 1) =~= bs@.take(i as int).push(b));
            if press {
                assert(presses(bs@.take(i + 1)) =~= presses(bs@.take(i as int)).push(ClientAction::MousePress(b)));
            } else {
                assert(releases(bs@.take(i + 1)) =~= releases(bs@.take(i as int)).push(ClientAction::MouseRelease(b)));
            }
        }
        i = i + 1;
    }
    proof {
        assert(bs@.take(bs@.len() as int) =~= bs@);
    }
}

impl Client {
    /// A new session: nothing owed, no button held, no action pending.
    pub fn new(share: bool) -> (c: Client)
        ensures
            c@ == (ClientView { share, has_update: false, req_update: false, last_buttons: Set::empty() }),
            c.after_actions() == c@,
    {
        let c = Client {
            share,
            has_update: false,
            req_update: false,
            last_buttons: Vec::new(),
            next_has_update: false,
            next_req_update: false,
            next_buttons: None,
        };
        proof {
            assert(c.last_buttons@.to_set() =~= Set::<MouseButton>::empty());
        }
        c
    }

    /// Whether the display is shared with other clients.
    pub fn share(&self) -> (b: bool)
        ensures
            b == self@.share,
    {
        self.share
    }

    /// Whether a framebuffer update is owed.
    pub fn update_pending(&self) -> (b: bool)
        ensures
            b == update_owed(self@),
    {
        self.has_update && self.req_update
    }

    /// The asked actions are all done: the session comes to the state they
    /// lead to.
    pub fn actions_done(&mut self)
        ensures
            final(self)@ == old(self).after_actions(),
            final(self).after_actions() == old(self).after_actions(),
    {
        self.has_update = self.next_has_update;
        self.req_update = self.next_req_update;
        let next = self.next_buttons.take();
        match next {
            Some(v) => {
                self.last_buttons = v;
            },
            None => {},
        }
    }

    /// Asks for the framebuffer to be sent if an update is owed; once that is
    /// done, none is owed.
    pub fn send_framebuffer_update(&mut self) -> (actions: Vec<ClientAction>)
        ensures
            final(self)@ == old(self)@,
            (final(self).after_actions(), actions@) == flush(old(self)@),
    {
        let mut actions: Vec<ClientAction> = Vec::new();
        self.next_buttons = None;
        if self.has_update && self.req_update {
            actions.push(ClientAction::SendFramebufferUpdate);
            self.next_has_update = false;
            self.next_req_update = false;
        } else {
            self.next_has_update = self.has_update;
            self.next_req_update = self.req_update;
        }
        proof {
            assert(actions@ =~= flush(old(self)@).1);
        }
        actions
    }

    /// Answers a client message; `keymap` maps X11 keysyms to QEMU key numbers.
    pub fn handle_vnc_event(&mut self, event: VncEvent, keymap: &[u16]) -> (actions: Vec<ClientAction>)
        ensures
            final(self)@ == vnc_pre(old(self)@, event),
            (final(self).after_actions(), actions@) == vnc_step(old(self)@, event, keymap@),
    {
        match event {
            VncEvent::FramebufferUpdateRequest { .. } => {
                self.req_update = true;
                self.send_framebuffer_update()
            },
            VncEvent::KeyEvent { key, down } => {
                self.next_has_update = self.has_update;
                self.next_req_update = self.req_update;
                self.next_buttons = None;
                let mut actions: Vec<ClientAction> = Vec::new();
                let k: usize = key as usize;
                if k < keymap.len() {
                    let qnum = keymap[k] as u32;
                    if down {
                        actions.push(ClientAction::KeyPress(qnum));
                    } else {
                        actions.push(ClientAction::KeyRelease(qnum));
                    }
                }
                proof {
                    assert(actions@ =~= key_actions(down, key, keymap@));
                }
                actions
            },
            VncEvent::PointerEvent { button_mask, x_position, y_position } => {
                let buttons = button_mask_to_set(button_mask);
                let pressed = button_difference(&buttons, &self.last_buttons);
                let released = button_difference(&self.last_buttons, &buttons);
                let mut actions: Vec<ClientAction> = Vec::new();
                push_buttons(&mut actions, &pressed, true);
                push_buttons(&mut actions, &released, false);
                actions.push(ClientAction::MouseSetAbsPosition(x_position as u32, y_position as u32));
                proof {
                    lemma_ordered_buttons_members(mask_buttons(button_mask));
                }
                self.next_has_update = self.has_update;
                self.next_req_update = self.req_update;
                self.next_buttons = Some(buttons);
                proof {
                    let old_set = old(self)@.last_buttons;
                    assert(actions@ =~= pointer_actions(old_set, button_mask, x_position, y_position));
                }
                actions
            },
            VncEvent::Other => {
                self.next_has_update = self.has_update;
                self.next_req_update = self.req_update;
                self.next_buttons = None;
                Vec::new()
            },
        }
    }

    /// Answers what the session waited for (`None`: nothing came in time).
    /// Returns whether the session goes on, and what it asks to be done; the
    /// session is left in the state in which the actions are performed, and
    /// `actions_done` brings it to the state they lead to.
    pub fn handle_event(&mut self, event: Option<Event>, keymap: &[u16]) -> (res: (bool, Vec<ClientAction>))
        ensures
            final(self)@ == event_pre(old(self)@, event),
            (res.0, final(self).after_actions(), res.1@) == event_step(old(self)@, event, keymap@),
    {
        match event {
            Some(Event::Vnc(e)) => (true, self.handle_vnc_event(e, keymap)),
            Some(Event::ConsoleUpdate(_)) => {
                self.has_update = true;
                self.next_has_update = true;
                self.next_req_update = self.req_update;
                self.next_buttons = None;
                (true, Vec::new())
            },
            Some(Event::Disconnected) => {
                self.next_has_update = self.has_update;
                self.next_req_update = self.req_update;
                self.next_buttons = None;
                (false, Vec::new())
            },
            None => (true, self.send_framebuffer_update()),
        }
    }
}

} // verus!
