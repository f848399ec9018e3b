use crate::error::Error;
use crate::event::{Event, SendData};
use crate::event_sink::EventSink;
use vstd::prelude::*;

verus! {

/// The consumer of the event queue: it forwards every event to its sink,
/// in the order received, without batching or filtering.
pub struct Engine<Sink: EventSink> {
    pub sink: Sink,
}

/// What the consume loop does after one event.
pub enum EngineStep {
    /// Receive the next event.
    Continue,
    /// The run is over, with this outcome.
    Finished(Result<(), Error>),
}

/// What the consume loop does once the sink has answered: go on after a
/// successful send, end the run with the error of a failed one.
pub fn after_send(sent: Result<(), Error>) -> (r: EngineStep)
    ensures
        sent is Ok ==> r is Continue,
        sent matches Err(e) ==> r == EngineStep::Finished(Err(e)),
{
    match sent {
        Ok(()) => EngineStep::Continue,
        Err(e) => EngineStep::Finished(Err(e)),
    }
}

impl<Sink: EventSink> Engine<Sink> {
    pub fn new(sink: Sink) -> (r: Self)
        ensures
            r.sink == sink,
    {
        Engine { sink }
    }

    /// Handles what the queue handed over: an event is sent to the sink and
    /// the run goes on while sends succeed; a send failure ends the run with
    /// that error, and a closed queue (`None`) ends it successfully.
    pub fn step(&self, received: Option<Event>) -> (r: EngineStep)
        ensures
            received is None ==> r == EngineStep::Finished(Ok(())),
            received is Some ==> (r is Continue || r matches EngineStep::Finished(Err(_))),
    {
        match received {
            None => EngineStep::Finished(Ok(())),
            Some(evt) => {
                let payload = SendData::from_event(&evt);
                after_send(self.sink.send(&payload))
            },
        }
    }
}

} // verus!
