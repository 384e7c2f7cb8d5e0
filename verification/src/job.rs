//! One job: a single execution of a request, from its creation to the report
//! of its last exchange.
//!
//! A job does no work of its own. It is a state machine: the caller hands it
//! an event, the job moves on and answers with the action to perform next,
//! and the outcome of that action is the following event. Whatever happens to
//! an exchange, its response is reported; a job cannot fail without a report.

use crate::address::{AddressParseError, Endpoint, EndpointView, error_text};
use crate::request::{RequestSpec, RequestView, copy_text, text_view, well_formed};
use crate::transport::{
    DatagramOutcome, Exchange, ExchangeView, GetOutcome, SendStep, StepView, StreamOutcome,
    conclude_datagram, conclude_get, conclude_stream, conclude_unread_file, datagram_spec,
    get_spec, plan_spec, send_step, stream_spec, unread_file_spec,
};
use vstd::prelude::*;
use vstd::string::StringExecFns;

verus! {

/// Where a job stands.
#[derive(Clone, Copy, Debug, PartialEq, Eq, Structural)]
pub enum JobState {
    /// Built, not yet started.
    Created,
    /// Waiting for the address to be resolved.
    Resolving,
    /// Waiting for an exchange to end.
    Sending,
    /// The exchange went through; its response is being reported.
    Succeeded,
    /// The exchange failed; what there is of a response is being reported.
    Failed,
    /// Everything is reported. The job is over.
    Reported,
}

/// What happened since the job last answered.
#[derive(Debug)]
pub enum Event {
    /// The job is set going.
    Start,
    /// The address was resolved, or refused.
    Resolved(Result<Endpoint, AddressParseError>),
    /// The file was read, or could not be; the error carries the reason.
    FileRead(Result<Vec<u8>, String>),
    /// A stream exchange ended.
    Stream(StreamOutcome),
    /// A datagram was dealt with.
    Datagram(DatagramOutcome),
    /// A GET ended.
    Page(GetOutcome),
    /// The response was handed to the sink.
    Reported,
}

/// What the caller is to do next.
#[derive(Debug)]
pub enum Action {
    /// Resolve the address and come back with `Event::Resolved`.
    Resolve { address: String },
    /// Read the file and come back with `Event::FileRead`.
    ReadFile { path: String },
    /// Exchange the payload over a byte stream; come back with `Event::Stream`.
    OpenStream { host: String, port: u16, payload: Vec<u8> },
    /// Send the payload as one datagram; come back with `Event::Datagram`.
    SendDatagram { host: String, port: u16, payload: Vec<u8> },
    /// Fetch the URL; come back with `Event::Page`.
    Get { url: String },
    /// Log the diagnostic, if any, hand the response to the sink and come
    /// back with `Event::Reported`.
    Report { response: Vec<u8>, save_path: Option<String>, diagnostic: Option<String> },
    /// Nothing is left to do.
    Finish,
}

/// An [`Action`] in contracts.
pub enum ActionView {
    Resolve { address: Seq<char> },
    ReadFile { path: Seq<char> },
    OpenStream { host: Seq<char>, port: u16, payload: Seq<u8> },
    SendDatagram { host: Seq<char>, port: u16, payload: Seq<u8> },
    Get { url: Seq<char> },
    Report { response: Seq<u8>, save_path: Option<Seq<char>>, diagnostic: Option<Seq<char>> },
    Finish,
}

impl View for Action {
    type V = ActionView;

    open spec fn view(&self) -> ActionView {
        match *self {
            Action::Resolve { address } => ActionView::Resolve { address: address@ },
            Action::ReadFile { path } => ActionView::ReadFile { path: path@ },
            Action::OpenStream { host, port, payload } => ActionView::OpenStream {
                host: host@,
                port,
                payload: payload@,
            },
            Action::SendDatagram { host, port, payload } => ActionView::SendDatagram {
                host: host@,
                port,
                payload: payload@,
            },
            Action::Get { url } => ActionView::Get { url: url@ },
            Action::Report { response, save_path, diagnostic } => ActionView::Report {
                response: response@,
                save_path: text_view(save_path),
                diagnostic: text_view(diagnostic),
            },
            Action::Finish => ActionView::Finish,
        }
    }
}

/// The view of an optional action.
pub open spec fn action_view(a: Option<Action>) -> Option<ActionView> {
    match a {
        Some(action) => Some(action@),
        None => None,
    }
}

/// A [`Job`] in contracts.
pub struct JobView {
    /// The request that the job executes.
    pub spec: RequestView,
    pub state: JobState,
    /// The resolved target, once there is one.
    pub endpoint: Option<EndpointView>,
    /// The position in the plan of the exchange in hand.
    pub step: nat,
    /// True while a file transfer has read its file and exchanges the content.
    pub file_read: bool,
}

/// A job as it is built: nothing resolved, nothing sent.
pub open spec fn fresh(spec: RequestView) -> JobView {
    JobView { spec, state: JobState::Created, endpoint: None, step: 0, file_read: false }
}

/// What holds of every job.
pub open spec fn job_inv(j: JobView) -> bool {
    let plan = plan_spec(j.spec);
    &&& well_formed(j.spec)
    &&& match j.state {
        JobState::Created | JobState::Resolving => j.endpoint is None && j.step == 0
            && !j.file_read,
        JobState::Sending => j.endpoint is Some && j.step < plan.len() && (j.file_read
            ==> plan[j.step as int] is FileTransfer),
        JobState::Succeeded => j.endpoint is Some && j.step < plan.len() && !j.file_read,
        JobState::Failed => j.step < plan.len() && !j.file_read,
        JobState::Reported => !j.file_read,
    }
}

/// The action that sets an exchange going.
pub open spec fn launch_spec(step: StepView, target: EndpointView) -> ActionView {
    match step {
        StepView::Stream { payload } => ActionView::OpenStream {
            host: target.host,
            port: target.port,
            payload,
        },
        StepView::FileTransfer { path } => ActionView::ReadFile { path },
        StepView::Datagram { payload } => ActionView::SendDatagram {
            host: target.host,
            port: target.port,
            payload,
        },
        StepView::Get { url } => ActionView::Get { url },
    }
}

/// The job after an exchange has come to `x`, and the report of `x`: the
/// response as it is, for the path that the request names.
pub open spec fn concluded(j: JobView, x: ExchangeView) -> (JobView, ActionView) {
    (
        JobView {
            state: if x.diagnostic is Some {
                JobState::Failed
            } else {
                JobState::Succeeded
            },
            file_read: false,
            ..j
        },
        ActionView::Report {
            response: x.response,
            save_path: j.spec.save_path,
            diagnostic: x.diagnostic,
        },
    )
}

/// What a refused address comes to: no response, and the error as diagnostic.
pub open spec fn unresolved_spec(e: AddressParseError) -> ExchangeView {
    ExchangeView { response: Seq::empty(), diagnostic: Some(error_text(e)) }
}

/// The step of a job that waits for an exchange to end.
pub open spec fn sending_spec(j: JobView, e: Event) -> Option<(JobView, ActionView)> {
    let target = j.endpoint->0;
    match (plan_spec(j.spec)[j.step as int], e) {
        (StepView::FileTransfer { .. }, Event::FileRead(Ok(content))) => if j.file_read {
            None
        } else {
            Some(
                (
                    JobView { file_read: true, ..j },
                    ActionView::OpenStream {
                        host: target.host,
                        port: target.port,
                        payload: content@,
                    },
                ),
            )
        },
        (StepView::FileTransfer { .. }, Event::FileRead(Err(reason))) => if j.file_read {
            None
        } else {
            Some(concluded(j, unread_file_spec(reason@)))
        },
        (StepView::FileTransfer { .. }, Event::Stream(outcome)) => if j.file_read {
            Some(concluded(j, stream_spec(outcome)))
        } else {
            None
        },
        (StepView::Stream { .. }, Event::Stream(outcome)) => Some(
            concluded(j, stream_spec(outcome)),
        ),
        (StepView::Datagram { .. }, Event::Datagram(outcome)) => Some(
            concluded(j, datagram_spec(outcome)),
        ),
        (StepView::Get { .. }, Event::Page(outcome)) => Some(concluded(j, get_spec(outcome))),
        _ => None,
    }
}

/// The step of a job whose report is done: on to the next exchange of the
/// plan, or to the end where the plan has none left or no target was found.
pub open spec fn advance_spec(j: JobView) -> (JobView, ActionView) {
    let plan = plan_spec(j.spec);
    if j.endpoint is Some && j.step + 1 < plan.len() {
        (
            JobView { state: JobState::Sending, step: j.step + 1, file_read: false, ..j },
            launch_spec(plan[j.step as int + 1], j.endpoint->0),
        )
    } else {
        (JobView { state: JobState::Reported, ..j }, ActionView::Finish)
    }
}

/// One step of a job: the job and the action after `e`, or `None` where the
/// job does not wait for `e`.
pub open spec fn step_spec(j: JobView, e: Event) -> Option<(JobView, ActionView)> {
    match (j.state, e) {
        (JobState::Created, Event::Start) => Some(
            (
                JobView { state: JobState::Resolving, ..j },
                ActionView::Resolve { address: j.spec.address },
            ),
        ),
        (JobState::Resolving, Event::Resolved(Ok(target))) => Some(
            (
                JobView { state: JobState::Sending, endpoint: Some(target@), ..j },
                launch_spec(plan_spec(j.spec)[0], target@),
            ),
        ),
        (JobState::Resolving, Event::Resolved(Err(error))) => Some(
            concluded(j, unresolved_spec(error)),
        ),
        (JobState::Sending, _) => sending_spec(j, e),
        (JobState::Succeeded, Event::Reported) => Some(advance_spec(j)),
        (JobState::Failed, Event::Reported) => Some(advance_spec(j)),
        _ => None,
    }
}

/// One execution of a request.
#[derive(Debug)]
pub struct Job {
    spec: RequestSpec,
    state: JobState,
    endpoint: Option<Endpoint>,
    step: usize,
    file_read: bool,
}

impl View for Job {
    type V = JobView;

    closed spec fn view(&self) -> JobView {
        JobView {
            spec: self.spec@,
            state: self.state,
            endpoint: match self.endpoint {
                Some(e) => Some(e@),
                None => None,
            },
            step: self.step as nat,
            file_read: self.file_read,
        }
    }
}

/// The action that sets `step` going towards `target`.
fn launch(step: SendStep, target: &Endpoint) -> (r: Action)
    ensures
        r@ == launch_spec(step@, target@),
{
    match step {
        SendStep::Stream { payload } => Action::OpenStream {
            host: target.host.clone(),
            port: target.port,
            payload,
        },
        SendStep::FileTransfer { path } => Action::ReadFile { path },
        SendStep::Datagram { payload } => Action::SendDatagram {
            host: target.host.clone(),
            port: target.port,
            payload,
        },
        SendStep::Get { url } => Action::Get { url },
    }
}

impl Job {
    #[verifier::type_invariant]
    spec fn valid(&self) -> bool {
        job_inv(self@)
    }

    /// A job for `spec`, not yet started.
    pub fn new(spec: RequestSpec) -> (r: Job)
        ensures
            r@ == fresh(spec@),
            job_inv(r@),
    {
        // Recalls that the request is well formed.
        let _ = spec.protocol();
        Job { spec, state: JobState::Created, endpoint: None, step: 0, file_read: false }
    }

    /// Where the job stands. The call also recalls what holds of every job.
    pub fn state(&self) -> (r: JobState)
        ensures
            r == self@.state,
            job_inv(self@),
    {
        proof {
            use_type_invariant(self);
        }
        self.state
    }

    /// True once everything is reported.
    pub fn is_over(&self) -> (r: bool)
        ensures
            r == (self@.state == JobState::Reported),
    {
        self.state == JobState::Reported
    }

    /// The job after an exchange has come to `x`, with the report of `x`.
    fn conclude(self, x: Exchange) -> (r: (Job, Option<Action>))
        requires
            self@.step < plan_spec(self@.spec).len(),
            x@.diagnostic is None ==> self@.endpoint is Some,
        ensures
            r.0@ == concluded(self@, x@).0,
            action_view(r.1) == Some(concluded(self@, x@).1),
    {
        proof {
            use_type_invariant(&self);
        }
        let Job { spec, state: _, endpoint, step, file_read: _ } = self;
        let save_path = copy_text(spec.save_path());
        let Exchange { response, diagnostic } = x;
        let state = if diagnostic.is_some() {
            JobState::Failed
        } else {
            JobState::Succeeded
        };
        let job = Job { spec, state, endpoint, step, file_read: false };
        (job, Some(Action::Report { response, save_path, diagnostic }))
    }

    /// Moves the job on by one event.
    ///
    /// Where the job waits for `event`, the result is the job in its next
    /// state and the action to perform. Where it does not, the job comes back
    /// as it was, with no action.
    pub fn step(self, event: Event) -> (r: (Job, Option<Action>))
        ensures
            job_inv(self@),
            match step_spec(self@, event) {
                Some((next, action)) => r.0@ == next && action_view(r.1) == Some(action),
                None => r.0@ == self@ && r.1 is None,
            },
    {
        proof {
            use_type_invariant(&self);
        }
        match self.state {
            JobState::Created => match event {
                Event::Start => {
                    let Job { spec, state: _, endpoint, step, file_read } = self;
                    let address = String::from_str(spec.address());
                    let job = Job { spec, state: JobState::Resolving, endpoint, step, file_read };
                    (job, Some(Action::Resolve { address }))
                },
                _ => (self, None),
            },
            JobState::Resolving => match event {
                Event::Resolved(Ok(target)) => {
                    let Job { spec, state: _, endpoint: _, step, file_read } = self;
                    match send_step(&spec, 0) {
                        Some(first) => {
                            let action = launch(first, &target);
                            let job = Job {
                                spec,
                                state: JobState::Sending,
                                endpoint: Some(target),
                                step,
                                file_read,
                            };
                            (job, Some(action))
                        },
                        // Every plan has a first exchange.
                        None => {
                            let job = Job {
                                spec,
                                state: JobState::Resolving,
                                endpoint: None,
                                step,
                                file_read,
                            };
                            (job, None)
                        },
                    }
                },
                Event::Resolved(Err(error)) => {
                    let x = Exchange { response: Vec::new(), diagnostic: Some(error.message()) };
                    self.conclude(x)
                },
                _ => (self, None),
            },
            JobState::Sending => self.step_sending(event),
            JobState::Succeeded | JobState::Failed => match event {
                Event::Reported => self.advance(),
                _ => (self, None),
            },
            JobState::Reported => (self, None),
        }
    }

    /// The step of a job that waits for an exchange to end.
    fn step_sending(self, event: Event) -> (r: (Job, Option<Action>))
        requires
            self@.state == JobState::Sending,
        ensures
            match sending_spec(self@, event) {
                Some((next, action)) => r.0@ == next && action_view(r.1) == Some(action),
                None => r.0@ == self@ && r.1 is None,
            },
    {
        proof {
            use_type_invariant(&self);
        }
        let current = send_step(&self.spec, self.step);
        match (current, event) {
            (Some(SendStep::FileTransfer { .. }), Event::FileRead(Ok(content))) => {
                if self.file_read {
                    (self, None)
                } else {
                    let Job { spec, state, endpoint, step, file_read: _ } = self;
                    match endpoint {
                        Some(target) => {
                            let action = Action::OpenStream {
                                host: target.host.clone(),
                                port: target.port,
                                payload: content,
                            };
                            let job = Job {
                                spec,
                                state,
                                endpoint: Some(target),
                                step,
                                file_read: true,
                            };
                            (job, Some(action))
                        },
                        // A job that sends has its target.
                        None => (Job { spec, state, endpoint: None, step, file_read: false }, None),
                    }
                }
            },
            (Some(SendStep::FileTransfer { .. }), Event::FileRead(Err(reason))) => {
                if self.file_read {
                    (self, None)
                } else {
                    self.conclude(conclude_unread_file(reason.as_str()))
                }
            },
            (Some(SendStep::FileTransfer { .. }), Event::Stream(outcome)) => {
                if self.file_read {
                    self.conclude(conclude_stream(outcome))
                } else {
                    (self, None)
                }
            },
            (Some(SendStep::Stream { .. }), Event::Stream(outcome)) => self.conclude(
                conclude_stream(outcome),
            ),
            (Some(SendStep::Datagram { .. }), Event::Datagram(outcome)) => self.conclude(
                conclude_datagram(outcome),
            ),
            (Some(SendStep::Get { .. }), Event::Page(outcome)) => self.conclude(
                conclude_get(outcome),
            ),
            _ => (self, None),
        }
    }

    /// The step of a job whose report is done.
    fn advance(self) -> (r: (Job, Option<Action>))
        requires
            self@.state == JobState::Succeeded || self@.state == JobState::Failed,
        ensures
            r.0@ == advance_spec(self@).0,
            action_view(r.1) == Some(advance_spec(self@).1),
    {
        proof {
            use_type_invariant(&self);
        }
        let Job { spec, state: _, endpoint, step, file_read } = self;
        let following = match &endpoint {
            Some(target) => match send_step(&spec, step + 1) {
                Some(next) => Some(launch(next, target)),
                None => None,
            },
            None => None,
        };
        match following {
            Some(action) => {
                let job = Job { spec, state: JobState::Sending, endpoint, step: step + 1, file_read };
                (job, Some(action))
            },
            None => {
                let job = Job { spec, state: JobState::Reported, endpoint, step, file_read };
                (job, Some(Action::Finish))
            },
        }
    }
}

/// The job after `e`, where it waits for `e`; else the job as it is.
pub open spec fn job_after(j: JobView, e: Event) -> JobView {
    match step_spec(j, e) {
        Some((next, _)) => next,
        None => j,
    }
}

/// The action after `e`, where the job waits for `e`.
pub open spec fn action_after(j: JobView, e: Event) -> ActionView {
    match step_spec(j, e) {
        Some((_, action)) => action,
        None => ActionView::Finish,
    }
}

/// An upper bound on the events that a job can still take.
pub open spec fn events_left(j: JobView) -> nat {
    let plan = plan_spec(j.spec);
    let later: nat = if j.endpoint is Some && j.step < plan.len() {
        (4 * (plan.len() - j.step - 1)) as nat
    } else {
        0
    };
    match j.state {
        JobState::Created => 10,
        JobState::Resolving => 9,
        JobState::Sending => later + if j.file_read {
            2nat
        } else {
            3nat
        },
        JobState::Succeeded | JobState::Failed => later + 1,
        JobState::Reported => 0,
    }
}

/// A step keeps what holds of every job.
pub proof fn lemma_step_keeps_invariant(j: JobView, e: Event)
    requires
        job_inv(j),
        step_spec(j, e) is Some,
    ensures
        job_inv(job_after(j, e)),
        job_after(j, e).spec == j.spec,
{
}

/// Every step that a job takes brings it nearer to its end, so a job is over
/// after ten events at most; and it is over only when everything is
/// reported.
pub proof fn lemma_step_makes_progress(j: JobView, e: Event)
    requires
        job_inv(j),
        step_spec(j, e) is Some,
    ensures
        events_left(job_after(j, e)) < events_left(j) <= 10,
        events_left(j) == 0 <==> j.state == JobState::Reported,
{
}

/// A job that is over takes no event, and a job that is not over waits for
/// one: it cannot get stuck short of its report.
pub proof fn lemma_job_never_stuck(j: JobView)
    requires
        job_inv(j),
    ensures
        j.state == JobState::Reported ==> forall|e: Event| step_spec(j, e) is None,
        j.state != JobState::Reported ==> exists|e: Event| step_spec(j, e) is Some,
{
    match j.state {
        JobState::Created => {
            assert(step_spec(j, Event::Start) is Some);
        },
        JobState::Resolving => {
            let e = Event::Resolved(Err(AddressParseError::InvalidFormat));
            assert(step_spec(j, e) is Some);
        },
        JobState::Sending => {
            let e = match plan_spec(j.spec)[j.step as int] {
                StepView::Stream { .. } => Event::Stream(arbitrary()),
                StepView::FileTransfer { .. } => if j.file_read {
                    Event::Stream(arbitrary())
                } else {
                    Event::FileRead(Err(arbitrary()))
                },
                StepView::Datagram { .. } => Event::Datagram(arbitrary()),
                StepView::Get { .. } => Event::Page(arbitrary()),
            };
            assert(step_spec(j, e) is Some);
        },
        JobState::Succeeded | JobState::Failed => {
            assert(step_spec(j, Event::Reported) is Some);
        },
        JobState::Reported => {},
    }
}

/// Success and failure meet in the report: whenever an exchange ends, or the
/// address is refused, the action is a report for the path that the request
/// names, and it is marked failed exactly when it carries a diagnostic.
pub proof fn lemma_every_outcome_is_reported(j: JobView, e: Event)
    requires
        job_inv(j),
        step_spec(j, e) is Some,
        job_after(j, e).state == JobState::Succeeded || job_after(j, e).state
            == JobState::Failed,
    ensures
        action_after(j, e) is Report,
        action_after(j, e)->save_path == j.spec.save_path,
        action_after(j, e)->diagnostic is Some <==> job_after(j, e).state
            == JobState::Failed,
{
}

/// What a stream brings back is what is reported: the bytes that the peer
/// sent, all of them and nothing else.
pub proof fn lemma_received_bytes_are_reported(j: JobView, received: Vec<u8>)
    requires
        job_inv(j),
        j.state == JobState::Sending,
        plan_spec(j.spec)[j.step as int] is Stream || j.file_read,
    ensures
        step_spec(j, Event::Stream(StreamOutcome::Completed { received })) == Some(
            (
                JobView { state: JobState::Succeeded, file_read: false, ..j },
                ActionView::Report {
                    response: received@,
                    save_path: j.spec.save_path,
                    diagnostic: None,
                },
            ),
        ),
{
}

/// A datagram is followed by its report and by nothing else: whatever became
/// of it, the job takes no event but its outcome and answers with a report of
/// no bytes. No reply is waited for.
pub proof fn lemma_datagram_awaits_no_reply(j: JobView, e: Event)
    requires
        job_inv(j),
        j.state == JobState::Sending,
        plan_spec(j.spec)[j.step as int] is Datagram,
        step_spec(j, e) is Some,
    ensures
        e is Datagram,
        action_after(j, e) is Report,
        action_after(j, e)->response.len() == 0,
{
}

/// A file goes out byte for byte: once it is read, the payload of the stream
/// is its content.
pub proof fn lemma_file_content_is_payload(j: JobView, content: Vec<u8>)
    requires
        job_inv(j),
        j.state == JobState::Sending,
        plan_spec(j.spec)[j.step as int] is FileTransfer,
        !j.file_read,
    ensures
        step_spec(j, Event::FileRead(Ok(content))) == Some(
            (
                JobView { file_read: true, ..j },
                ActionView::OpenStream {
                    host: j.endpoint->0.host,
                    port: j.endpoint->0.port,
                    payload: content@,
                },
            ),
        ),
{
}

/// A file that cannot be read ends its exchange: the report carries no bytes
/// and no stream is opened.
pub proof fn lemma_unread_file_opens_no_stream(j: JobView, reason: String)
    requires
        job_inv(j),
        j.state == JobState::Sending,
        plan_spec(j.spec)[j.step as int] is FileTransfer,
        !j.file_read,
    ensures
        step_spec(j, Event::FileRead(Err(reason))) == Some(
            (
                JobView { state: JobState::Failed, ..j },
                ActionView::Report {
                    response: Seq::empty(),
                    save_path: j.spec.save_path,
                    diagnostic: unread_file_spec(reason@).diagnostic,
                },
            ),
        ),
{
}

/// A target that cannot be reached fails its exchange and nothing more: the
/// report carries no bytes and a diagnostic, and the job goes on to it.
pub proof fn lemma_unreachable_target_is_reported(j: JobView, reason: String)
    requires
        job_inv(j),
        j.state == JobState::Sending,
        plan_spec(j.spec)[j.step as int] is Stream || j.file_read,
    ensures
        step_spec(j, Event::Stream(StreamOutcome::ConnectFailed { reason })) == Some(
            (
                JobView { state: JobState::Failed, file_read: false, ..j },
                ActionView::Report {
                    response: Seq::empty(),
                    save_path: j.spec.save_path,
                    diagnostic: Some("Failed to connect to TCP server"@ + ": "@ + reason@),
                },
            ),
        ),
        events_left(job_after(j, Event::Stream(StreamOutcome::ConnectFailed { reason })))
            > 0,
{
}

} // verus!
