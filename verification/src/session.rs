//! The order of a conversation with the device, as state machines that
//! perform no transfer themselves.
//!
//! A machine names the next `Action`. The caller performs it and hands back
//! its outcome: the bytes it delivered (none for any action but `Receive`)
//! or the transport's error. The machine then names the next action or
//! gives the result of the conversation.

use vstd::prelude::*;
use crate::command::Command;
use crate::error::{DeviceError, InitError, InitFailure, ProtocolError, TransportError};
use crate::layout::REPORT_LEN;
use crate::model::PrinterModel;
use crate::status::{PrinterStatus, PrinterStatusView};

verus! {

/// One piece of work on the link to the device.
#[derive(Debug, Clone, Copy, PartialEq, Eq, Structural)]
pub enum Action {
    /// Find the device by `VENDOR_ID` and `PRODUCT_ID`, open it and claim
    /// `INTERFACE`.
    Open,
    /// Write the bytes of a command to `TO_DEVICE`.
    Send(Command),
    /// Wait `PACING_MILLIS`.
    Pause,
    /// Read up to `REPORT_LEN` bytes from `FROM_DEVICE`.
    Receive,
}

/// A status query in progress, named by the action that is outstanding.
#[derive(Debug, Clone, Copy, PartialEq, Eq, Structural)]
pub enum StatusQuery {
    Requesting,
    Pausing,
    Receiving,
}

/// What a status query does next.
#[derive(Debug)]
pub enum QueryStep {
    Continue(StatusQuery, Action),
    Done(Result<PrinterStatus, DeviceError>),
}

/// A `QueryStep` with the status by its view.
pub enum QueryStepView {
    Continue(StatusQuery, Action),
    Done(Result<PrinterStatusView, DeviceError>),
}

impl View for QueryStep {
    type V = QueryStepView;

    open spec fn view(&self) -> QueryStepView {
        match *self {
            QueryStep::Continue(query, action) => QueryStepView::Continue(query, action),
            QueryStep::Done(Ok(status)) => QueryStepView::Done(Ok(status@)),
            QueryStep::Done(Err(e)) => QueryStepView::Done(Err(e)),
        }
    }
}

/// The outcome of an action with the delivered bytes as a sequence.
pub open spec fn delivered(outcome: Result<Vec<u8>, TransportError>) -> Result<
    Seq<u8>,
    TransportError,
> {
    match outcome {
        Ok(bytes) => Ok(bytes@),
        Err(e) => Err(e),
    }
}

impl StatusQuery {
    /// The step that follows the outcome of the outstanding action. A failed
    /// action ends the query. The request is followed by the pause, the
    /// pause by the read, and the read by the decoding of what it delivered;
    /// a read that delivers other than a whole report is a failed transfer.
    pub open spec fn next(self, outcome: Result<Seq<u8>, TransportError>) -> QueryStepView {
        match outcome {
            Err(e) => QueryStepView::Done(Err(DeviceError::Transport(e))),
            Ok(bytes) => match self {
                StatusQuery::Requesting => QueryStepView::Continue(
                    StatusQuery::Pausing,
                    Action::Pause,
                ),
                StatusQuery::Pausing => QueryStepView::Continue(
                    StatusQuery::Receiving,
                    Action::Receive,
                ),
                StatusQuery::Receiving => if bytes.len() != REPORT_LEN {
                    QueryStepView::Done(Err(DeviceError::Transport(TransportError::TransferFailed)))
                } else {
                    match PrinterStatus::parse(bytes) {
                        Ok(view) => QueryStepView::Done(Ok(view)),
                        Err(e) => QueryStepView::Done(Err(DeviceError::Protocol(e))),
                    }
                },
            },
        }
    }

    /// Begins a status query: the request is to be sent.
    pub fn start() -> (begun: (StatusQuery, Action))
        ensures
            begun == (StatusQuery::Requesting, Action::Send(Command::StatusRequest)),
    {
        (StatusQuery::Requesting, Action::Send(Command::StatusRequest))
    }

    /// Takes the outcome of the outstanding action and says what follows.
    pub fn step(self, outcome: Result<Vec<u8>, TransportError>) -> (step: QueryStep)
        ensures
            step@ == self.next(delivered(outcome)),
    {
        let bytes = match outcome {
            Ok(bytes) => bytes,
            Err(e) => {
                return QueryStep::Done(Err(DeviceError::Transport(e)));
            },
        };
        match self {
            StatusQuery::Requesting => QueryStep::Continue(StatusQuery::Pausing, Action::Pause),
            StatusQuery::Pausing => QueryStep::Continue(StatusQuery::Receiving, Action::Receive),
            StatusQuery::Receiving => match PrinterStatus::frame(bytes.as_slice()) {
                None => QueryStep::Done(
                    Err(DeviceError::Transport(TransportError::TransferFailed)),
                ),
                Some(report) => match PrinterStatus::decode(&report) {
                    Ok(status) => QueryStep::Done(Ok(status)),
                    Err(e) => QueryStep::Done(Err(DeviceError::Protocol(e))),
                },
            },
        }
    }
}

/// The course of a status query: the actions it asked for, in order, and its
/// result once it has ended.
pub struct QueryCourse {
    pub actions: Seq<Action>,
    pub end: Option<Result<PrinterStatusView, DeviceError>>,
}

impl StatusQuery {
    /// The actions of a complete status query, in order.
    pub open spec fn script() -> Seq<Action> {
        seq![Action::Send(Command::StatusRequest), Action::Pause, Action::Receive]
    }

    /// The course that a query takes from this state on when its actions,
    /// one after another, end as `outcomes` say. Outcomes beyond the end of
    /// the query belong to no action and count for nothing.
    pub open spec fn course_from(
        self,
        outcomes: Seq<Result<Seq<u8>, TransportError>>,
    ) -> QueryCourse
        decreases outcomes.len(),
    {
        if outcomes.len() == 0 {
            QueryCourse { actions: Seq::empty(), end: None }
        } else {
            match self.next(outcomes[0]) {
                QueryStepView::Done(result) => QueryCourse {
                    actions: Seq::empty(),
                    end: Some(result),
                },
                QueryStepView::Continue(state, action) => {
                    let rest = state.course_from(outcomes.drop_first());
                    QueryCourse { actions: seq![action] + rest.actions, end: rest.end }
                },
            }
        }
    }

    /// The course of a query from its start.
    pub open spec fn course(outcomes: Seq<Result<Seq<u8>, TransportError>>) -> QueryCourse {
        let rest = StatusQuery::Requesting.course_from(outcomes);
        QueryCourse {
            actions: seq![Action::Send(Command::StatusRequest)] + rest.actions,
            end: rest.end,
        }
    }

    /// A status query keeps to its script. Whatever the outcomes, the
    /// actions it asks for are the script or a beginning of it, and three
    /// outcomes end it. It ends with a status exactly when the request and
    /// the pause went through and the read delivered a whole report that
    /// decodes; the status is what the report decodes to.
    pub proof fn lemma_query_keeps_to_script(outcomes: Seq<Result<Seq<u8>, TransportError>>)
        ensures
            StatusQuery::course(outcomes).actions.is_prefix_of(StatusQuery::script()),
            outcomes.len() >= StatusQuery::script().len() ==> StatusQuery::course(outcomes).end
                is Some,
            StatusQuery::course(outcomes).end is Some ==> StatusQuery::course(
                outcomes,
            ).actions.len() <= outcomes.len(),
            (StatusQuery::course(outcomes).end matches Some(Ok(_))) <==> {
                &&& outcomes.len() >= 3
                &&& outcomes[0] is Ok
                &&& outcomes[1] is Ok
                &&& outcomes[2] matches Ok(bytes)
                &&& bytes.len() == REPORT_LEN
                &&& PrinterStatus::parse(bytes) is Ok
            },
            StatusQuery::course(outcomes).end matches Some(Ok(view)) ==> {
                &&& StatusQuery::course(outcomes).actions == StatusQuery::script()
                &&& outcomes[2] matches Ok(bytes)
                &&& PrinterStatus::parse(bytes) == Ok::<PrinterStatusView, ProtocolError>(view)
            },
    {
        let script = StatusQuery::script();
        let o1 = outcomes.drop_first();
        let o2 = o1.drop_first();
        let c0 = StatusQuery::Requesting.course_from(outcomes);
        let c1 = StatusQuery::Pausing.course_from(o1);
        let c2 = StatusQuery::Receiving.course_from(o2);
        let course = StatusQuery::course(outcomes);
        if outcomes.len() > 0 && outcomes[0] is Ok {
            if o1.len() > 0 && o1[0] is Ok {
                assert(c1.actions == seq![Action::Receive] + c2.actions);
                assert(c2.actions =~= Seq::<Action>::empty());
                assert(course.actions =~= script);
                assert(o2.len() > 0 ==> o2[0] == outcomes[2]);
            } else {
                assert(c1.actions =~= Seq::<Action>::empty());
                assert(course.actions =~= script.take(2));
            }
        } else {
            assert(c0.actions =~= Seq::<Action>::empty());
            assert(course.actions =~= script.take(1));
        }
    }
}

/// A session with an initialized device that reported no fault.
#[derive(Debug, Clone, Copy, PartialEq, Eq, Structural)]
pub struct Printer {
    /// The model that the device reported when the session began.
    pub model: PrinterModel,
}

/// An initialization handshake in progress, named by the action that is
/// outstanding.
#[derive(Debug, Clone, Copy, PartialEq, Eq, Structural)]
pub enum Handshake {
    Opening,
    Invalidating,
    Initializing,
    Querying(StatusQuery),
}

/// What a handshake does next.
#[derive(Debug)]
pub enum InitStep {
    Continue(Handshake, Action),
    Done(Result<Printer, InitError>),
}

/// An `InitStep` with the error by its view.
pub enum InitStepView {
    Continue(Handshake, Action),
    Done(Result<Printer, InitFailure>),
}

impl View for InitStep {
    type V = InitStepView;

    open spec fn view(&self) -> InitStepView {
        match *self {
            InitStep::Continue(handshake, action) => InitStepView::Continue(handshake, action),
            InitStep::Done(Ok(printer)) => InitStepView::Done(Ok(printer)),
            InitStep::Done(Err(e)) => InitStepView::Done(Err(e@)),
        }
    }
}

impl Handshake {
    /// How a handshake ends once its status query has ended: with a session
    /// of the reported model if the report lists no fault, with the listed
    /// faults if it lists any, and with the query's error if it had one.
    pub open spec fn conclude(query_result: Result<PrinterStatusView, DeviceError>) -> Result<
        Printer,
        InitFailure,
    > {
        match query_result {
            Ok(view) => if view.errors.len() == 0 {
                Ok(Printer { model: view.model })
            } else {
                Err(InitFailure::PrinterFault(view.errors))
            },
            Err(e) => Err(InitFailure::DeviceError(e)),
        }
    }

    /// The step that follows the outcome of the outstanding action. A failed
    /// action ends the handshake. Opening is followed by the invalidate
    /// command, that by the initialize command, and that by one status
    /// query, whose end is the end of the handshake.
    pub open spec fn next(self, outcome: Result<Seq<u8>, TransportError>) -> InitStepView {
        match self {
            Handshake::Querying(query) => match query.next(outcome) {
                QueryStepView::Continue(query, action) => InitStepView::Continue(
                    Handshake::Querying(query),
                    action,
                ),
                QueryStepView::Done(result) => InitStepView::Done(Handshake::conclude(result)),
            },
            _ => match outcome {
                Err(e) => InitStepView::Done(
                    Err(InitFailure::DeviceError(DeviceError::Transport(e))),
                ),
                Ok(_) => match self {
                    Handshake::Opening => InitStepView::Continue(
                        Handshake::Invalidating,
                        Action::Send(Command::Invalidate),
                    ),
                    Handshake::Invalidating => InitStepView::Continue(
                        Handshake::Initializing,
                        Action::Send(Command::Initialize),
                    ),
                    _ => InitStepView::Continue(
                        Handshake::Querying(StatusQuery::Requesting),
                        Action::Send(Command::StatusRequest),
                    ),
                },
            },
        }
    }

    /// Begins a handshake: the device is to be opened.
    pub fn start() -> (begun: (Handshake, Action))
        ensures
            begun == (Handshake::Opening, Action::Open),
    {
        (Handshake::Opening, Action::Open)
    }

    /// Takes the outcome of the outstanding action and says what follows.
    pub fn step(self, outcome: Result<Vec<u8>, TransportError>) -> (step: InitStep)
        ensures
            step@ == self.next(delivered(outcome)),
    {
        match self {
            Handshake::Querying(query) => match query.step(outcome) {
                QueryStep::Continue(query, action) => InitStep::Continue(
                    Handshake::Querying(query),
                    action,
                ),
                QueryStep::Done(Ok(status)) => {
                    if status.errors.len() == 0 {
                        InitStep::Done(Ok(Printer { model: status.model }))
                    } else {
                        InitStep::Done(Err(InitError::PrinterFault(status.errors)))
                    }
                },
                QueryStep::Done(Err(e)) => InitStep::Done(Err(InitError::DeviceError(e))),
            },
            Handshake::Opening => match outcome {
                Err(e) => InitStep::Done(Err(InitError::DeviceError(DeviceError::Transport(e)))),
                Ok(_) => InitStep::Continue(
                    Handshake::Invalidating,
                    Action::Send(Command::Invalidate),
                ),
            },
            Handshake::Invalidating => match outcome {
                Err(e) => InitStep::Done(Err(InitError::DeviceError(DeviceError::Transport(e)))),
                Ok(_) => InitStep::Continue(
                    Handshake::Initializing,
                    Action::Send(Command::Initialize),
                ),
            },
            Handshake::Initializing => match outcome {
                Err(e) => InitStep::Done(Err(InitError::DeviceError(DeviceError::Transport(e)))),
                Ok(_) => InitStep::Continue(
                    Handshake::Querying(StatusQuery::Requesting),
                    Action::Send(Command::StatusRequest),
                ),
            },
        }
    }
}

/// The course of a handshake: the actions it asked for, in order, and its
/// result once it has ended.
pub struct HandshakeCourse {
    pub actions: Seq<Action>,
    pub end: Option<Result<Printer, InitFailure>>,
}

impl Handshake {
    /// The actions of a complete handshake, in order.
    pub open spec fn script() -> Seq<Action> {
        seq![
            Action::Open,
            Action::Send(Command::Invalidate),
            Action::Send(Command::Initialize),
            Action::Send(Command::StatusRequest),
            Action::Pause,
            Action::Receive,
        ]
    }

    /// The course that a handshake takes from this state on when its
    /// actions, one after another, end as `outcomes` say. Outcomes beyond
    /// the end of the handshake belong to no action and count for nothing.
    pub open spec fn course_from(self, outcomes: Seq<Result<Seq<u8>, TransportError>>) -> HandshakeCourse
        decreases outcomes.len(),
    {
        if outcomes.len() == 0 {
            HandshakeCourse { actions: Seq::empty(), end: None }
        } else {
            match self.next(outcomes[0]) {
                InitStepView::Done(result) => HandshakeCourse { actions: Seq::empty(), end: Some(result) },
                InitStepView::Continue(state, action) => {
                    let rest = state.course_from(outcomes.drop_first());
                    HandshakeCourse { actions: seq![action] + rest.actions, end: rest.end }
                },
            }
        }
    }

    /// The course of a handshake from its start.
    pub open spec fn course(outcomes: Seq<Result<Seq<u8>, TransportError>>) -> HandshakeCourse {
        let rest = Handshake::Opening.course_from(outcomes);
        HandshakeCourse { actions: seq![Action::Open] + rest.actions, end: rest.end }
    }

    /// A handshake keeps to its script. Whatever the outcomes, the actions
    /// it asks for are the script or a beginning of it, and six outcomes end
    /// it. It ends with a session only after the whole script (the device
    /// opened, invalidate sent, initialize sent, and one status query made,
    /// in that order) and only if the report read last decodes to a state
    /// without faults; the session is of that report's model. If that report
    /// decodes to a state with faults, the handshake ends with those faults
    /// and no session.
    pub proof fn lemma_handshake_keeps_to_script(outcomes: Seq<Result<Seq<u8>, TransportError>>)
        ensures
            Handshake::course(outcomes).actions.is_prefix_of(Handshake::script()),
            outcomes.len() >= Handshake::script().len() ==> Handshake::course(outcomes).end is Some,
            Handshake::course(outcomes).end is Some ==> Handshake::course(outcomes).actions.len()
                <= outcomes.len(),
            Handshake::course(outcomes).end matches Some(Ok(printer)) ==> {
                &&& Handshake::course(outcomes).actions == Handshake::script()
                &&& forall|i: int| 0 <= i < 6 ==> (#[trigger] outcomes[i]) is Ok
                &&& outcomes[5] matches Ok(bytes)
                &&& bytes.len() == REPORT_LEN
                &&& PrinterStatus::parse(bytes) matches Ok(view)
                &&& view.errors.len() == 0
                &&& printer.model == view.model
            },
            Handshake::course(outcomes).end matches Some(Err(InitFailure::PrinterFault(faults)))
                ==> {
                &&& Handshake::course(outcomes).actions == Handshake::script()
                &&& forall|i: int| 0 <= i < 6 ==> (#[trigger] outcomes[i]) is Ok
                &&& outcomes[5] matches Ok(bytes)
                &&& bytes.len() == REPORT_LEN
                &&& PrinterStatus::parse(bytes) matches Ok(view)
                &&& view.errors.len() > 0
                &&& faults == view.errors
            },
    {
        let script = Handshake::script();
        let o1 = outcomes.drop_first();
        let o2 = o1.drop_first();
        let o3 = o2.drop_first();
        let o4 = o3.drop_first();
        let o5 = o4.drop_first();
        let c0 = Handshake::Opening.course_from(outcomes);
        let c1 = Handshake::Invalidating.course_from(o1);
        let c2 = Handshake::Initializing.course_from(o2);
        let c3 = Handshake::Querying(StatusQuery::Requesting).course_from(o3);
        let c4 = Handshake::Querying(StatusQuery::Pausing).course_from(o4);
        let c5 = Handshake::Querying(StatusQuery::Receiving).course_from(o5);
        let course = Handshake::course(outcomes);
        if outcomes.len() > 0 && outcomes[0] is Ok {
            if o1.len() > 0 && o1[0] is Ok {
                if o2.len() > 0 && o2[0] is Ok {
                    if o3.len() > 0 && o3[0] is Ok {
                        if o4.len() > 0 && o4[0] is Ok {
                            assert(c4.actions == seq![Action::Receive] + c5.actions);
                            assert(c5.actions =~= Seq::<Action>::empty());
                            assert(course.actions =~= script);
                            assert(o5.len() > 0 ==> o5[0] == outcomes[5]);
                        } else {
                            assert(c4.actions =~= Seq::<Action>::empty());
                            assert(course.actions =~= script.take(5));
                        }
                    } else {
                        assert(c3.actions =~= Seq::<Action>::empty());
                        assert(course.actions =~= script.take(4));
                    }
                } else {
                    assert(c2.actions =~= Seq::<Action>::empty());
                    assert(course.actions =~= script.take(3));
                }
            } else {
                assert(c1.actions =~= Seq::<Action>::empty());
                assert(course.actions =~= script.take(2));
            }
        } else {
            assert(c0.actions =~= Seq::<Action>::empty());
            assert(course.actions =~= script.take(1));
        }
    }

    /// Once the device is open and the two commands are sent, the rest of a
    /// handshake is one status query: its actions are those of the query,
    /// and it ends when the query ends, as `conclude` says.
    pub proof fn lemma_handshake_makes_one_query(outcomes: Seq<Result<Seq<u8>, TransportError>>)
        requires
            outcomes.len() >= 3,
            outcomes[0] is Ok,
            outcomes[1] is Ok,
            outcomes[2] is Ok,
        ensures
            Handshake::course(outcomes).actions == seq![
                Action::Open,
                Action::Send(Command::Invalidate),
                Action::Send(Command::Initialize),
            ] + StatusQuery::course(outcomes.skip(3)).actions,
            Handshake::course(outcomes).end == match StatusQuery::course(outcomes.skip(3)).end {
                Some(result) => Some(Handshake::conclude(result)),
                None => None,
            },
    {
        let o1 = outcomes.drop_first();
        let o2 = o1.drop_first();
        let o3 = o2.drop_first();
        assert(o3 =~= outcomes.skip(3));
        let h1 = Handshake::Invalidating.course_from(o1);
        let h2 = Handshake::Initializing.course_from(o2);
        let h3 = Handshake::Querying(StatusQuery::Requesting).course_from(o3);
        let q = StatusQuery::Requesting.course_from(o3);
        Handshake::lemma_querying_follows_query(StatusQuery::Requesting, o3);
        assert(h2.actions == seq![Action::Send(Command::StatusRequest)] + h3.actions);
        assert(h1.actions == seq![Action::Send(Command::Initialize)] + h2.actions);
        assert(Handshake::course(outcomes).actions =~= seq![
            Action::Open,
            Action::Send(Command::Invalidate),
            Action::Send(Command::Initialize),
        ] + StatusQuery::course(o3).actions);
    }

    /// While a handshake is in its status query, it asks for what the query
    /// asks for and ends when the query ends.
    proof fn lemma_querying_follows_query(
        query: StatusQuery,
        outcomes: Seq<Result<Seq<u8>, TransportError>>,
    )
        ensures
            Handshake::Querying(query).course_from(outcomes).actions == query.course_from(
                outcomes,
            ).actions,
            Handshake::Querying(query).course_from(outcomes).end == match query.course_from(
                outcomes,
            ).end {
                Some(result) => Some(Handshake::conclude(result)),
                None => None,
            },
        decreases outcomes.len(),
    {
        if outcomes.len() > 0 {
            match query.next(outcomes[0]) {
                QueryStepView::Continue(state, action) => {
                    Handshake::lemma_querying_follows_query(state, outcomes.drop_first());
                },
                QueryStepView::Done(result) => {},
            }
        }
    }
}

impl Printer {
    /// Begins the initialization of a device. The handshake that this
    /// starts ends with a `Printer` or with the reason why there is none.
    pub fn init() -> (begun: (Handshake, Action))
        ensures
            begun == (Handshake::Opening, Action::Open),
    {
        Handshake::start()
    }

    /// Begins a query of the device's status.
    pub fn get_status(&self) -> (begun: (StatusQuery, Action))
        ensures
            begun == (StatusQuery::Requesting, Action::Send(Command::StatusRequest)),
    {
        StatusQuery::start()
    }
}

} // verus!
