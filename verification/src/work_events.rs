//! The durable stream of task notifications. It follows the store, not the native side.
use vstd::prelude::*;
use crate::value::Text;
use crate::work::model::ChangePage;
use crate::work::model::ChangePageModel;
use crate::work::store::changes::change_page;
use crate::work::store::tables::StoreModel;
use crate::work::store::tables::WorkStore;

verus! {

/// The changes that one event carries at most.
pub const STREAM_PAGE: u32 = 100;

/// What a stream does after an event.
#[derive(Debug, Clone, Copy, PartialEq, Eq, Structural)]
pub enum Pause {
    /// More changes are waiting.
    Continue,
    /// All is told for now.
    Wait,
    /// The reader has to take a fresh snapshot first: going on would skip what it missed.
    Close,
}

impl DeepView for Pause {
    type V = Pause;

    open spec fn deep_view(&self) -> Pause {
        *self
    }
}

/// What a stream does next.
#[derive(Debug)]
pub enum StreamStep {
    /// The device may no longer read.
    Close,
    /// The store cannot be read: the reader is told so and the stream ends.
    Unavailable,
    Emit { name: String, page: ChangePage, pause: Pause },
}

/// The value of a `StreamStep`.
#[verifier::ext_equal]
pub enum StreamStepModel {
    Close,
    Unavailable,
    Emit { name: Text, page: ChangePageModel, pause: Pause },
}

impl DeepView for StreamStep {
    type V = StreamStepModel;

    open spec fn deep_view(&self) -> StreamStepModel {
        match self {
            StreamStep::Close => StreamStepModel::Close,
            StreamStep::Unavailable => StreamStepModel::Unavailable,
            StreamStep::Emit { name, page, pause } => StreamStepModel::Emit {
                name: name.deep_view(),
                page: page.deep_view(),
                pause: *pause,
            },
        }
    }
}

/// The name of the event that carries a page.
pub open spec fn event_name(reset: bool) -> Text {
    if reset {
        "work.reset"@
    } else {
        "work.changes"@
    }
}

/// The event that carries a page, and what follows it.
pub open spec fn page_told(page: ChangePageModel) -> StreamStepModel {
    StreamStepModel::Emit {
        name: event_name(page.reset_required),
        page,
        pause: if page.reset_required {
            Pause::Close
        } else if page.changes.len() == STREAM_PAGE {
            Pause::Continue
        } else {
            Pause::Wait
        },
    }
}

/// What a stream at a cursor does next. A device that may no longer read gets nothing more, though
/// its connection is open.
pub open spec fn stream_step(
    s: StoreModel,
    session: Text,
    cursor: u64,
    authorized: bool,
) -> StreamStepModel {
    if !authorized {
        StreamStepModel::Close
    } else {
        match change_page(s, session, cursor, STREAM_PAGE) {
            Err(_) => StreamStepModel::Unavailable,
            Ok(page) => page_told(page),
        }
    }
}

/// What a stream at a cursor does next. It goes on from the cursor of the page that it tells.
pub fn events(store: &WorkStore, session: &str, cursor: u64, authorized: bool) -> (res: StreamStep)
    ensures
        res.deep_view() == stream_step(store@, session@, cursor, authorized),
{
    if !authorized {
        return StreamStep::Close;
    }
    match store.changes(session, cursor, STREAM_PAGE) {
        Err(_) => StreamStep::Unavailable,
        Ok(page) => {
            let name = if page.reset_required {
                "work.reset".to_string()
            } else {
                "work.changes".to_string()
            };
            let pause = if page.reset_required {
                Pause::Close
            } else if page.changes.len() == STREAM_PAGE as usize {
                Pause::Continue
            } else {
                Pause::Wait
            };
            StreamStep::Emit { name, page, pause }
        },
    }
}

/// A stream that is authorized tells the page of up to 100 changes that follows its cursor. It
/// goes on at once exactly where the page is full, waits where it is not, and ends where the
/// reader has to start over, which the name of the event says. One that is not authorized is told
/// nothing.
pub proof fn streams_tell_what_follows(s: StoreModel, session: Text, cursor: u64, authorized: bool)
    ensures
        !authorized ==> stream_step(s, session, cursor, authorized) is Close,
        authorized ==> match change_page(s, session, cursor, 100) {
            Err(_) => stream_step(s, session, cursor, authorized) is Unavailable,
            Ok(page) => stream_step(s, session, cursor, authorized) matches StreamStepModel::Emit {
                name,
                page: told,
                pause,
            } && told == page && (page.reset_required ==> name == "work.reset"@ && pause
                == Pause::Close) && (!page.reset_required ==> name == "work.changes"@ && (pause
                == Pause::Continue <==> page.changes.len() == 100) && (pause == Pause::Wait
                <==> page.changes.len() != 100)),
        },
{
}

} // verus!
