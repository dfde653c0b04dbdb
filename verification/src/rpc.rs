//! Device-side request dispatcher: routes each decoded inbound request to its
//! handler and produces exactly one response. Handlers share a mutable
//! context, here the writer side of the display cell. A frame that fails to
//! decode is dropped and the loop goes on with the next frame.

use vstd::prelude::*;

use crate::display::{slot_written, DisplaySlot};
use crate::icd::{Screen, ScreenView};

verus! {

/// A decoded host-to-device request.
#[derive(Debug)]
pub enum Request {
    /// The host asks the device to echo a value back.
    Ping(u32),
    /// The host asks the device to overwrite the display cell.
    SetDisplay(Screen),
}

/// Mathematical value of a [`Request`].
pub enum RequestView {
    Ping(u32),
    SetDisplay(ScreenView),
}

impl View for Request {
    type V = RequestView;

    open spec fn view(&self) -> RequestView {
        match self {
            Request::Ping(v) => RequestView::Ping(*v),
            Request::SetDisplay(s) => RequestView::SetDisplay(s@),
        }
    }
}

/// The device's response to one request.
#[derive(Debug)]
pub enum Response {
    /// The echoed value.
    Pong(u32),
    /// The empty acknowledgement of a display update.
    DisplaySet,
}

impl Response {
    pub open spec fn is_pong_of(self, v: u32) -> bool {
        self == Response::Pong(v)
    }
}

/// The shared mutable context handed to every handler invocation: the writer
/// handle to the display cell.
pub struct Context {
    pub display: DisplaySlot,
}

/// Executes the one registered handler for a request and returns its
/// response: a ping is echoed unchanged and leaves the display alone; a
/// display update overwrites the cell with the new screen.
pub fn dispatch(ctx: &mut Context, req: Request) -> (r: Response)
    requires
        old(ctx).display.wf(),
    ensures
        final(ctx).display.wf(),
        match req@ {
            RequestView::Ping(v) => r.is_pong_of(v) && final(ctx).display@ == old(ctx).display@,
            RequestView::SetDisplay(s) => r == Response::DisplaySet && final(ctx).display@
                == slot_written(old(ctx).display@, s),
        },
{
    match req {
        Request::Ping(v) => Response::Pong(v),
        Request::SetDisplay(s) => {
            ctx.display.write(s);
            Response::DisplaySet
        },
    }
}

/// Handles one inbound frame as the receive loop sees it: a frame that
/// decoded to a request is dispatched and answered; a frame that failed to
/// decode is dropped, leaving the context untouched, and the loop resumes.
pub fn handle_frame(ctx: &mut Context, frame: Option<Request>) -> (r: Option<Response>)
    requires
        old(ctx).display.wf(),
    ensures
        final(ctx).display.wf(),
        frame is None ==> r is None && final(ctx).display@ == old(ctx).display@,
        frame is Some ==> r is Some && match frame->Some_0@ {
            RequestView::Ping(v) => r->Some_0.is_pong_of(v) && final(ctx).display@ == old(
                ctx,
            ).display@,
            RequestView::SetDisplay(s) => r->Some_0 == Response::DisplaySet && final(ctx).display@
                == slot_written(old(ctx).display@, s),
        },
{
    match frame {
        Some(req) => Some(dispatch(ctx, req)),
        None => None,
    }
}

} // verus!
