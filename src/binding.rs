use vstd::prelude::*;

verus! {

/// The two handlers that can sit on the toggle control.
#[derive(Clone, Copy, Debug, PartialEq, Eq, Structural)]
pub enum Handler {
    Start,
    Stop,
}

impl Handler {
    /// The action word that the control shows while this handler is attached.
    pub fn label(&self) -> (r: &'static str)
        ensures
            r@ == (match *self {
                Handler::Start => "start"@,
                Handler::Stop => "stop"@,
            }),
    {
        match self {
            Handler::Start => "start",
            Handler::Stop => "stop",
        }
    }
}

/// Which handler is attached to the single toggle control.
pub struct ControlBinding {
    attached: Option<Handler>,
}

impl View for ControlBinding {
    type V = Option<Handler>;

    closed spec fn view(&self) -> Option<Handler> {
        self.attached
    }
}

/// The binding after `detach(h)`.
pub open spec fn detached(b: Option<Handler>, h: Handler) -> Option<Handler> {
    if b == Some(h) {
        None
    } else {
        b
    }
}

/// The binding after `attach(h)`: a handler is put on a free control only.
pub open spec fn attached(b: Option<Handler>, h: Handler) -> Option<Handler> {
    if b is None {
        Some(h)
    } else {
        b
    }
}

impl ControlBinding {
    /// A control that offers the start action.
    pub fn new() -> (r: ControlBinding)
        ensures
            r@ == Some(Handler::Start),
    {
        ControlBinding { attached: Some(Handler::Start) }
    }

    pub fn attached(&self) -> (r: Option<Handler>)
        ensures
            r == self@,
    {
        self.attached
    }

    /// Takes `h` off the control; a no-op where `h` is not the attached handler.
    pub fn detach(&mut self, h: Handler)
        ensures
            final(self)@ == detached(old(self)@, h),
    {
        match self.attached {
            Some(a) => {
                if a == h {
                    self.attached = None;
                }
            },
            None => {},
        }
    }

    /// Puts `h` on the control; a no-op where a handler is attached already, so
    /// that two handlers are never attached at once.
    pub fn attach(&mut self, h: Handler)
        ensures
            final(self)@ == attached(old(self)@, h),
    {
        if self.attached.is_none() {
            self.attached = Some(h);
        }
    }

    /// Swaps `from` for `to`: detach, then attach.
    pub fn rebind(&mut self, from: Handler, to: Handler)
        ensures
            final(self)@ == attached(detached(old(self)@, from), to),
            old(self)@ == Some(from) ==> final(self)@ == Some(to),
    {
        self.detach(from);
        self.attach(to);
    }
}

} // verus!
