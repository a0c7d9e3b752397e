//! Request handling: the pre-rendered index page, and the computation at
//! the heart of every graph request — dispatch the event, let the update
//! capability decide what changed, and pick the response envelope by the
//! session-boundary rule.

use vstd::prelude::*;

use crate::control::button::ButtonClick;
use crate::control::slider::SliderChange;
use crate::error::RhubarbError;
use crate::layout::{layout_dispatch_ensures, layout_dispatch_requires, Layout};
use crate::update::{ClientMessage, GenerateUpdate, LayoutUpdate, Update};

verus! {

/// Serves the pre-rendered index page; the page is rendered once by the
/// template collaborator and held verbatim.
#[derive(Debug, Clone)]
pub struct IndexHandler {
    page: String,
}

impl IndexHandler {
    /// The page this handler serves.
    pub closed spec fn spec_page(&self) -> Seq<char> {
        self.page@
    }

    /// A handler serving the given page.
    pub fn new(page: String) -> (r: IndexHandler)
        ensures
            r.spec_page() == page@,
    {
        IndexHandler { page }
    }

    /// Hands back the page to serve.
    pub fn page(&self) -> (r: &String)
        ensures
            r@ == self.spec_page(),
    {
        &self.page
    }
}

/// The response to one graph request: the first request of a session is
/// answered with the full tree, every later one with the incremental
/// envelope alone.
pub enum SessionResponse<'a, St, FB, FS> {
    /// First contact: the update widened by the full serialized layout.
    Opening(LayoutUpdate<'a, St, FB, FS>),
    /// Any later request: the incremental update alone.
    Followup(Update<St, FB, FS>),
}

/// The computation at the heart of one graph request.
///
/// With no message — the empty first request of a session — the update
/// capability runs on the opening state with no previous state, and the
/// response carries the full tree.  With a message, the event is dispatched
/// at its target, the capability compares the echoed previous state with
/// the dispatched one, and the response is incremental.  Dispatch errors
/// and capability errors are returned, never masked.
pub fn respond<'a, St, FB, FS, Gen>(
    layout: &'a Layout<FB, FS>,
    updater: &Gen,
    message: Option<ClientMessage<St>>,
    prev_echo: Option<St>,
    opening_state: St,
) -> (r: Result<SessionResponse<'a, St, FB, FS>, RhubarbError>) where
    FB: Fn(ButtonClick, St) -> Result<St, RhubarbError>,
    FS: Fn(SliderChange, St) -> Result<St, RhubarbError>,
    Gen: GenerateUpdate<St, FB, FS>,

    requires
        message is Some <==> prev_echo is Some,
        message matches Some(m) ==> (prev_echo matches Some(p) && p == m.ui_state),
        message matches Some(m) ==> layout_dispatch_requires(
            layout.spec_components(),
            m.event_message,
            m.ui_state,
        ),
    ensures
        message is None ==> (r matches Ok(resp) ==> resp is Opening),
        message is Some ==> (r matches Ok(resp) ==> resp is Followup),
        r matches Ok(resp) ==> (resp matches SessionResponse::Opening(lu) ==> lu.spec_layout()
            == *layout),
        message matches Some(m) ==> exists|d: Result<St, RhubarbError>|
            {
                &&& #[trigger] layout_dispatch_ensures(
                    layout.spec_components(),
                    m.event_message,
                    m.ui_state,
                    d,
                )
                &&& (d matches Err(e) ==> r == Err::<SessionResponse<'a, St, FB, FS>,
                RhubarbError>(e))
            },
{
    match message {
        None => {
            match updater.update(layout, None, opening_state) {
                Ok(update) => Ok(SessionResponse::Opening(LayoutUpdate::new(update, layout))),
                Err(e) => Err(e),
            }
        },
        Some(m) => {
            let ghost gm = m;
            let ClientMessage { ui_state, event_message } = m;
            match layout.handle_event(event_message, ui_state) {
                Ok(new_state) => {
                    proof {
                        assert(layout_dispatch_ensures(
                            layout.spec_components(),
                            gm.event_message,
                            gm.ui_state,
                            Ok::<St, RhubarbError>(new_state),
                        ));
                    }
                    match updater.update(layout, prev_echo, new_state) {
                        Ok(update) => Ok(SessionResponse::Followup(update)),
                        Err(e) => Err(e),
                    }
                },
                Err(e) => {
                    proof {
                        assert(layout_dispatch_ensures(
                            layout.spec_components(),
                            gm.event_message,
                            gm.ui_state,
                            Err::<St, RhubarbError>(e),
                        ));
                    }
                    Err(e)
                },
            }
        },
    }
}

} // verus!
