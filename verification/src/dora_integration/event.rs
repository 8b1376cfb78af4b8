//! Events that the worker reports to the user interface.

use vstd::prelude::*;

verus! {

/// How many events can wait for the user interface.
pub const EVENT_QUEUE_CAPACITY: usize = 100;

/// Events sent from the worker to the user interface.
#[derive(Debug, Clone)]
pub enum DoraEvent {
    /// The dataflow came up under the given identifier.
    DataflowStarted { dataflow_id: String },
    /// The dataflow is no longer running.
    DataflowStopped,
    /// Bringing the dataflow up failed.
    Error { message: String },
}

/// What a [`DoraEvent`] says, with its texts as character sequences.
pub ghost enum EventView {
    DataflowStarted { dataflow_id: Seq<char> },
    DataflowStopped,
    Error { message: Seq<char> },
}

impl DeepView for DoraEvent {
    type V = EventView;

    open spec fn deep_view(&self) -> EventView {
        match self {
            DoraEvent::DataflowStarted { dataflow_id } => EventView::DataflowStarted {
                dataflow_id: dataflow_id@,
            },
            DoraEvent::DataflowStopped => EventView::DataflowStopped,
            DoraEvent::Error { message } => EventView::Error { message: message@ },
        }
    }
}

} // verus!
