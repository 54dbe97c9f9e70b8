//! What QEMU sends to a console listener, and the listener that hands it on.

use vstd::prelude::*;

verus! {

/// A new scanout: the whole display, as pixels in memory.
#[derive(Debug)]
pub struct Scanout {
    pub width: u32,
    pub height: u32,
    pub stride: u32,
    pub format: u32,
    pub data: Vec<u8>,
}

/// An update of a rectangle of the current scanout.
#[derive(Debug)]
pub struct Update {
    pub x: i32,
    pub y: i32,
    pub w: i32,
    pub h: i32,
    pub stride: u32,
    pub format: u32,
    pub data: Vec<u8>,
}

/// A scanout in a shared memory map.
#[derive(Debug)]
pub struct ScanoutMap {
    pub handle: u64,
    pub offset: u32,
    pub width: u32,
    pub height: u32,
    pub stride: u32,
    pub format: u32,
}

/// An update of a rectangle of a shared memory map scanout.
#[derive(Debug, Copy, Clone)]
pub struct UpdateMap {
    pub x: i32,
    pub y: i32,
    pub w: i32,
    pub h: i32,
}

/// A scanout in a DMA buffer. The descriptor belongs to this value while
/// `fd >= 0`; dropping the value does not close it: its holder takes it with
/// `take_fd` and closes it, or hands it on with `into_raw_fd`.
#[derive(Debug)]
pub struct ScanoutDMABUF {
    pub fd: i32,
    pub width: u32,
    pub height: u32,
    pub stride: u32,
    pub fourcc: u32,
    pub modifier: u64,
    pub y0_top: bool,
}

/// A new cursor shape.
#[derive(Debug)]
pub struct Cursor {
    pub width: i32,
    pub height: i32,
    pub hot_x: i32,
    pub hot_y: i32,
    pub data: Vec<u8>,
}

/// A new mouse position, and whether the cursor is shown.
#[derive(Debug, Copy, Clone)]
pub struct MouseSet {
    pub x: i32,
    pub y: i32,
    pub on: i32,
}

/// An update of a rectangle of a DMA buffer scanout.
#[derive(Debug, Copy, Clone)]
pub struct UpdateDMABUF {
    pub x: i32,
    pub y: i32,
    pub w: i32,
    pub h: i32,
}

/// The descriptor that a DMA buffer scanout holds, if any.
pub open spec fn held_fd(s: ScanoutDMABUF) -> Option<i32> {
    if s.fd >= 0 {
        Some(s.fd)
    } else {
        None
    }
}

impl ScanoutDMABUF {
    /// Hands the descriptor over to the caller, with its ownership.
    pub fn into_raw_fd(self) -> (fd: i32)
        ensures
            fd == self.fd,
    {
        self.fd
    }

    /// Takes the descriptor that must be released, if one is held, and leaves
    /// none behind: a descriptor is given out for release at most once.
    pub fn take_fd(&mut self) -> (res: Option<i32>)
        ensures
            res == held_fd(*old(self)),
            held_fd(*final(self)) is None,
            final(self).fd == -1,
            final(self).width == old(self).width,
            final(self).height == old(self).height,
            final(self).stride == old(self).stride,
            final(self).fourcc == old(self).fourcc,
            final(self).modifier == old(self).modifier,
            final(self).y0_top == old(self).y0_top,
    {
        let fd = self.fd;
        self.fd = -1;
        if fd >= 0 {
            Some(fd)
        } else {
            None
        }
    }
}

/// What a console listener reports to the display.
#[derive(Debug)]
pub enum ConsoleEvent {
    Scanout(Scanout),
    Update(Update),
    ScanoutDMABUF(ScanoutDMABUF),
    UpdateDMABUF(UpdateDMABUF),
    MouseSet(MouseSet),
    CursorDefine(Cursor),
    Disconnected,
}

/// The error that a listener method answers QEMU with.
#[derive(Debug)]
pub enum ListenerError {
    NotSupported(String),
}

/// What the user of a console listener does with each message. A handler
/// takes each message, as a console event, at the end of the sequence of
/// events it holds, `received()`, which each implementation defines.
pub trait ConsoleListenerHandler {
    /// The console events this handler holds, oldest first.
    spec fn received(&self) -> Seq<ConsoleEvent>;

    fn scanout(&mut self, scanout: Scanout)
        ensures
            final(self).received() == old(self).received().push(ConsoleEvent::Scanout(scanout)),
    ;

    fn update(&mut self, update: Update)
        ensures
            final(self).received() == old(self).received().push(ConsoleEvent::Update(update)),
    ;

    fn scanout_dmabuf(&mut self, scanout: ScanoutDMABUF)
        ensures
            final(self).received() == old(self).received().push(ConsoleEvent::ScanoutDMABUF(scanout)),
    ;

    fn update_dmabuf(&mut self, update: UpdateDMABUF)
        ensures
            final(self).received() == old(self).received().push(ConsoleEvent::UpdateDMABUF(update)),
    ;

    fn mouse_set(&mut self, set: MouseSet)
        ensures
            final(self).received() == old(self).received().push(ConsoleEvent::MouseSet(set)),
    ;

    fn cursor_define(&mut self, cursor: Cursor)
        ensures
            final(self).received() == old(self).received().push(ConsoleEvent::CursorDefine(cursor)),
    ;

    fn disconnected(&mut self)
        ensures
            final(self).received() == old(self).received().push(ConsoleEvent::Disconnected),
    ;
}

/// A handler that keeps the console events it receives, in order, until
/// they are taken.
pub struct ConsoleEventQueue {
    events: Vec<ConsoleEvent>,
}

impl ConsoleEventQueue {
    /// A queue that holds no event.
    pub fn new() -> (q: ConsoleEventQueue)
        ensures
            q.received() == Seq::<ConsoleEvent>::empty(),
    {
        ConsoleEventQueue { events: Vec::new() }
    }

    /// The events held, oldest first.
    pub fn events(&self) -> (e: &Vec<ConsoleEvent>)
        ensures
            e@ == self.received(),
    {
        &self.events
    }

    /// Takes every event held, oldest first, and leaves none.
    pub fn take_events(&mut self) -> (e: Vec<ConsoleEvent>)
        ensures
            e@ == old(self).received(),
            final(self).received() == Seq::<ConsoleEvent>::empty(),
    {
        let mut taken: Vec<ConsoleEvent> = Vec::new();
        std::mem::swap(&mut taken, &mut self.events);
        taken
    }
}

impl ConsoleListenerHandler for ConsoleEventQueue {
    closed spec fn received(&self) -> Seq<ConsoleEvent> {
        self.events@
    }

    fn scanout(&mut self, scanout: Scanout) {
        self.events.push(ConsoleEvent::Scanout(scanout));
    }

    fn update(&mut self, update: Update) {
        self.events.push(ConsoleEvent::Update(update));
    }

    fn scanout_dmabuf(&mut self, scanout: ScanoutDMABUF) {
        self.events.push(ConsoleEvent::ScanoutDMABUF(scanout));
    }

    fn update_dmabuf(&mut self, update: UpdateDMABUF) {
        self.events.push(ConsoleEvent::UpdateDMABUF(update));
    }

    fn mouse_set(&mut self, set: MouseSet) {
        self.events.push(ConsoleEvent::MouseSet(set));
    }

    fn cursor_define(&mut self, cursor: Cursor) {
        self.events.push(ConsoleEvent::CursorDefine(cursor));
    }

    fn disconnected(&mut self) {
        self.events.push(ConsoleEvent::Disconnected);
    }
}

/// The object that answers QEMU's `org.qemu.Display1.Listener` calls. Its
/// owner calls `disconnect` when the listener goes away: dropping it tells
/// the handler nothing.
pub struct ConsoleListener<H: ConsoleListenerHandler> {
    pub handler: H,
}

impl<H: ConsoleListenerHandler> ConsoleListener<H> {
    pub fn new(handler: H) -> (res: Self)
        ensures
            res.handler == handler,
    {
        Self { handler }
    }

    /// `Scanout`: hands a new scanout of the given fields to the handler.
    pub fn scanout(&mut self, width: u32, height: u32, stride: u32, format: u32, data: Vec<u8>)
        ensures
            final(self).handler.received() == old(self).handler.received().push(
                ConsoleEvent::Scanout(Scanout { width, height, stride, format, data }),
            ),
    {
        self.handler.scanout(Scanout { width, height, stride, format, data });
    }

    /// `Update`: hands an update of the given fields to the handler.
    pub fn update(
        &mut self,
        x: i32,
        y: i32,
        w: i32,
        h: i32,
        stride: u32,
        format: u32,
        data: Vec<u8>,
    )
        ensures
            final(self).handler.received() == old(self).handler.received().push(
                ConsoleEvent::Update(Update { x, y, w, h, stride, format, data }),
            ),
    {
        self.handler.update(Update { x, y, w, h, stride, format, data });
    }

    /// `ScanoutMap`: shared maps are not supported on this platform; the
    /// handler is not called.
    pub fn scanout_map(
        &mut self,
        handle: u64,
        offset: u32,
        width: u32,
        height: u32,
        stride: u32,
        format: u32,
    ) -> (res: Result<(), ListenerError>)
        ensures
            res matches Err(ListenerError::NotSupported(m)) && m@
                == "Shared map is not support on !windows"@,
            *final(self) == *old(self),
    {
        Err(ListenerError::NotSupported(String::from_str("Shared map is not support on !windows")))
    }

    /// `UpdateMap`: shared maps are not supported on this platform; the
    /// handler is not called.
    pub fn update_map(&mut self, x: i32, y: i32, w: i32, h: i32) -> (res: Result<
        (),
        ListenerError,
    >)
        ensures
            res matches Err(ListenerError::NotSupported(m)) && m@
                == "Shared map is not support on !windows"@,
            *final(self) == *old(self),
    {
        Err(ListenerError::NotSupported(String::from_str("Shared map is not support on !windows")))
    }

    /// `ScanoutDMABUF`: hands the scanout to the handler; `fd` is the
    /// descriptor that the scanout then owns.
    pub fn scanout_dmabuf(
        &mut self,
        fd: i32,
        width: u32,
        height: u32,
        stride: u32,
        fourcc: u32,
        modifier: u64,
        y0_top: bool,
    ) -> (res: Result<(), ListenerError>)
        ensures
            res is Ok,
            final(self).handler.received() == old(self).handler.received().push(
                ConsoleEvent::ScanoutDMABUF(
                    ScanoutDMABUF { fd, width, height, stride, fourcc, modifier, y0_top },
                ),
            ),
    {
        self.handler.scanout_dmabuf(
            ScanoutDMABUF { fd, width, height, stride, fourcc, modifier, y0_top },
        );
        Ok(())
    }

    /// `UpdateDMABUF`: hands the update to the handler.
    pub fn update_dmabuf(&mut self, x: i32, y: i32, w: i32, h: i32) -> (res: Result<
        (),
        ListenerError,
    >)
        ensures
            res is Ok,
            final(self).handler.received() == old(self).handler.received().push(
                ConsoleEvent::UpdateDMABUF(UpdateDMABUF { x, y, w, h }),
            ),
    {
        self.handler.update_dmabuf(UpdateDMABUF { x, y, w, h });
        Ok(())
    }

    /// `MouseSet`: hands the mouse position to the handler.
    pub fn mouse_set(&mut self, x: i32, y: i32, on: i32)
        ensures
            final(self).handler.received() == old(self).handler.received().push(
                ConsoleEvent::MouseSet(MouseSet { x, y, on }),
            ),
    {
        self.handler.mouse_set(MouseSet { x, y, on });
    }

    /// `CursorDefine`: hands the cursor shape to the handler.
    pub fn cursor_define(&mut self, width: i32, height: i32, hot_x: i32, hot_y: i32, data: Vec<u8>)
        ensures
            final(self).handler.received() == old(self).handler.received().push(
                ConsoleEvent::CursorDefine(Cursor { width, height, hot_x, hot_y, data }),
            ),
    {
        self.handler.cursor_define(Cursor { width, height, hot_x, hot_y, data });
    }

    /// The listener goes away: tells the handler.
    pub fn disconnect(&mut self)
        ensures
            final(self).handler.received() == old(self).handler.received().push(
                ConsoleEvent::Disconnected,
            ),
    {
        self.handler.disconnected();
    }
}

} // verus!
