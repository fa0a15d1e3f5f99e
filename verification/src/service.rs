//! The polling service: one state machine for the whole pipeline.
//!
//! The driver reports what happened (the start, a timer, a fetched page, a
//! finished write) and is told what to do next (sleep, fetch a page, call the
//! store, exit). Within a tick the locations are fetched one after the other,
//! in their order; each page becomes an observation; when the last location is
//! done the batch goes to the store as the sink plans it, and the tick ends.

use vstd::prelude::*;
use crate::extract::{reads_page, PageReadings, Strategy};
use crate::fetch::{into_page, page_of, site_url, FetchError, FetchOutcome, FetchOutcomeView};
use crate::observation::{
    line_text, observation_of, valid_observation, LocationToken, LocationTokenView, Observation,
    VisitorCount,
};
use crate::scheduler::{ticks_left, Command, Mode, Phase, Scheduler, Signal};
use crate::settings::{FailurePolicy, Settings};
use crate::sink::{
    failure_of, observations_of, plan, point_of, records_of, to_point, to_records, Backend,
    SinkCall, SinkCallView, SinkError,
};

verus! {

/// The failure that ended a run.
#[derive(Clone, Copy, Debug, PartialEq, Eq, Structural)]
pub enum Failure {
    /// A page could not be fetched.
    Fetch(FetchError),
    /// The store did not take a call.
    Sink(SinkError),
}

/// Where a tick stands.
#[derive(Clone, Copy, Debug, PartialEq, Eq, Structural)]
pub enum Stage {
    /// No tick is running.
    Resting,
    /// The page of the location `index` has been asked for.
    Fetching { index: usize },
    /// The call `next` of the sink's plan has been handed to the store.
    Writing { next: usize },
}

/// What the driver reports.
#[derive(Debug)]
pub enum Event {
    /// The service begins.
    Start,
    /// The driver woke up from sleeping.
    Timer,
    /// The request for the page that was asked for has ended.
    Fetched(FetchOutcome),
    /// The store has answered the call that it was handed: `true` for
    /// success.
    Written(bool),
}

/// The mathematical value of an `Event`.
pub enum EventView {
    Start,
    Timer,
    Fetched(FetchOutcomeView),
    Written(bool),
}

impl View for Event {
    type V = EventView;

    open spec fn view(&self) -> EventView {
        match self {
            Event::Start => EventView::Start,
            Event::Timer => EventView::Timer,
            Event::Fetched(outcome) => EventView::Fetched(outcome@),
            Event::Written(ok) => EventView::Written(*ok),
        }
    }
}

/// What the machine takes: a report of the driver, with a fetched page
/// already turned into an observation.
#[derive(Debug)]
pub enum Input {
    Start,
    Timer,
    /// The page of the current location gave this observation, from these
    /// readings.
    Observed(VisitorCount, PageReadings),
    /// The page of the current location could not be fetched.
    FetchFailed(FetchError),
    Written(bool),
}

/// The mathematical value of an `Input`.
pub enum InputView {
    Start,
    Timer,
    Observed(Observation, PageReadings),
    FetchFailed(FetchError),
    Written(bool),
}

impl View for Input {
    type V = InputView;

    open spec fn view(&self) -> InputView {
        match self {
            Input::Start => InputView::Start,
            Input::Timer => InputView::Timer,
            Input::Observed(v, readings) => InputView::Observed(v@, *readings),
            Input::FetchFailed(e) => InputView::FetchFailed(*e),
            Input::Written(ok) => InputView::Written(*ok),
        }
    }
}

/// What the driver is to do next.
#[derive(Debug)]
pub enum Order {
    /// Sleep until the instant `until`, then report `Timer`.
    Sleep { until: u64 },
    /// Ask for the page at `url`, then report `Fetched`.
    Fetch { url: String },
    /// Hand the call to the store, then report `Written`.
    Store(SinkCall),
    /// End the run, with the failure that ended it, if one did.
    Exit { failure: Option<Failure> },
    /// The report does not apply where the service stands: go on as before.
    Continue,
}

/// The mathematical value of an `Order`.
pub enum OrderView {
    Sleep { until: u64 },
    Fetch { url: Seq<char> },
    Store(SinkCallView),
    Exit { failure: Option<Failure> },
    Continue,
}

impl View for Order {
    type V = OrderView;

    open spec fn view(&self) -> OrderView {
        match self {
            Order::Sleep { until } => OrderView::Sleep { until: *until },
            Order::Fetch { url } => OrderView::Fetch { url: url@ },
            Order::Store(call) => OrderView::Store(call@),
            Order::Exit { failure } => OrderView::Exit { failure: *failure },
            Order::Continue => OrderView::Continue,
        }
    }
}

/// What the driver is to print.
#[derive(Debug)]
pub enum Notice {
    /// An observation was made: its line for the console, and the reading of
    /// each counter.
    Observed { line: String, readings: PageReadings },
    /// The page of this location could not be fetched.
    FetchFailed { location: String, error: FetchError },
    /// The store did not take the call.
    WriteFailed(SinkError),
}

/// The mathematical value of a `Notice`.
pub enum NoticeView {
    Observed { line: Seq<char>, readings: PageReadings },
    FetchFailed { location: Seq<char>, error: FetchError },
    WriteFailed(SinkError),
}

impl View for Notice {
    type V = NoticeView;

    open spec fn view(&self) -> NoticeView {
        match self {
            Notice::Observed { line, readings } => NoticeView::Observed {
                line: line@,
                readings: *readings,
            },
            Notice::FetchFailed { location, error } => NoticeView::FetchFailed {
                location: location@,
                error: *error,
            },
            Notice::WriteFailed(error) => NoticeView::WriteFailed(*error),
        }
    }
}

/// The answer of the service to a report.
#[derive(Debug)]
pub struct Reply {
    pub order: Order,
    pub notice: Option<Notice>,
}

/// The mathematical value of a `Reply`.
pub struct ReplyView {
    pub order: OrderView,
    pub notice: Option<NoticeView>,
}

impl View for Reply {
    type V = ReplyView;

    open spec fn view(&self) -> ReplyView {
        ReplyView {
            order: self.order@,
            notice: match self.notice {
                Some(notice) => Some(notice@),
                None => None,
            },
        }
    }
}

/// The mathematical value of a `Service`.
pub struct ServiceView {
    pub base_url: Seq<char>,
    pub measurement: Seq<char>,
    pub strategy: Strategy,
    pub backend: Backend,
    pub policy: FailurePolicy,
    pub locations: Seq<LocationTokenView>,
    pub scheduler: Scheduler,
    pub stage: Stage,
    /// The observations of the running tick, in the order of their locations.
    pub batch: Seq<Observation>,
    /// The first failure of the store in the running tick.
    pub sink_error: Option<SinkError>,
}

/// A state and the order that leads to it.
pub struct Move {
    pub state: ServiceView,
    pub order: OrderView,
}

/// A state and the reply that leads to it.
pub struct Transition {
    pub state: ServiceView,
    pub reply: ReplyView,
}

/// The views of the locations.
pub open spec fn locations_of(locations: Seq<LocationToken>) -> Seq<LocationTokenView> {
    locations.map_values(|l: LocationToken| l@)
}

/// The order that a command of the scheduler becomes.
pub open spec fn order_of(command: Command, failure: Option<Failure>) -> OrderView {
    match command {
        Command::Sleep { until } => OrderView::Sleep { until },
        Command::Exit => OrderView::Exit { failure },
        _ => OrderView::Continue,
    }
}

impl ServiceView {
    /// The service before its start.
    pub open spec fn initial(
        base_url: Seq<char>,
        measurement: Seq<char>,
        strategy: Strategy,
        backend: Backend,
        policy: FailurePolicy,
        interval: u64,
        once: bool,
        locations: Seq<LocationTokenView>,
    ) -> ServiceView {
        ServiceView {
            base_url,
            measurement,
            strategy,
            backend,
            policy,
            locations,
            scheduler: Scheduler {
                interval,
                mode: if once {
                    Mode::Once
                } else {
                    Mode::Repeating
                },
                phase: Phase::Idle,
            },
            stage: Stage::Resting,
            batch: Seq::empty(),
            sink_error: None,
        }
    }

    /// Ends the tick at the instant `now`: the batch is let go, and the run
    /// halts where the store has failed in this tick and failures halt;
    /// otherwise the scheduler decides.
    pub open spec fn finish_tick(self, now: u64) -> Move {
        let halted = self.sink_error is Some && self.policy == FailurePolicy::Halt;
        let signal = if halted {
            Signal::Halt
        } else {
            Signal::TickDone
        };
        let failure = if halted {
            Some(Failure::Sink(self.sink_error->0))
        } else {
            None
        };
        Move {
            state: ServiceView {
                scheduler: self.scheduler.after(signal, now),
                stage: Stage::Resting,
                batch: Seq::empty(),
                ..self
            },
            order: order_of(self.scheduler.command_for(signal, now), failure),
        }
    }

    /// Hands the batch to the store: its first call, as the sink plans it. A
    /// plan without calls ends the tick.
    pub open spec fn begin_writing(self, now: u64) -> Move {
        let calls = plan(self.backend, self.measurement, self.batch);
        if calls.len() == 0 {
            self.finish_tick(now)
        } else {
            Move {
                state: ServiceView { stage: Stage::Writing { next: 0 }, ..self },
                order: OrderView::Store(calls[0]),
            }
        }
    }

    /// Goes on with the location `index`: asks for its page, or, where no
    /// location is left, hands the batch to the store.
    pub open spec fn fetch_from(self, index: int, now: u64) -> Move {
        if 0 <= index < self.locations.len() {
            Move {
                state: ServiceView { stage: Stage::Fetching { index: index as usize }, ..self },
                order: OrderView::Fetch { url: self.base_url + self.locations[index].token },
            }
        } else {
            self.begin_writing(now)
        }
    }

    /// Whether the locations and the batch are no more than a `Vec` can
    /// hold, as those of every `Service` are.
    pub open spec fn fits(self) -> bool {
        self.locations.len() <= usize::MAX && self.batch.len() <= usize::MAX
    }

    /// What holds of every state that the service reaches: a tick is in one
    /// of its stages exactly while the scheduler runs it; a page is asked for
    /// only of a location that there is, and a call is handed to the store
    /// only if the sink's plan holds it; the batch holds at most one
    /// observation for each location that has been dealt with, and none
    /// between two ticks.
    pub open spec fn consistent(self) -> bool {
        &&& self.locations.len() <= usize::MAX
        &&& (self.stage is Resting) == !(self.scheduler.phase is Running)
        &&& match self.stage {
            Stage::Resting => self.batch.len() == 0,
            Stage::Fetching { index } => index < self.locations.len() && self.batch.len()
                <= index,
            Stage::Writing { next } => self.batch.len() <= self.locations.len() && next < plan(
                self.backend,
                self.measurement,
                self.batch,
            ).len(),
        }
    }

    /// The state and the reply that follow `input` at the instant `now`.
    pub open spec fn next(self, input: InputView, now: u64) -> Transition {
        let ignored = Transition {
            state: self,
            reply: ReplyView { order: OrderView::Continue, notice: None },
        };
        match input {
            InputView::Start => Transition {
                state: ServiceView { scheduler: self.scheduler.after(Signal::Start, now), ..self },
                reply: ReplyView {
                    order: order_of(self.scheduler.command_for(Signal::Start, now), None),
                    notice: None,
                },
            },
            InputView::Timer => {
                let command = self.scheduler.command_for(Signal::Timer, now);
                let woken = ServiceView {
                    scheduler: self.scheduler.after(Signal::Timer, now),
                    ..self
                };
                if command == Command::RunTick {
                    let begun = ServiceView { batch: Seq::empty(), sink_error: None, ..woken };
                    let m = begun.fetch_from(0, now);
                    Transition {
                        state: m.state,
                        reply: ReplyView { order: m.order, notice: None },
                    }
                } else {
                    Transition {
                        state: woken,
                        reply: ReplyView { order: order_of(command, None), notice: None },
                    }
                }
            },
            InputView::Observed(o, readings) => match self.stage {
                Stage::Fetching { index } => if index < self.locations.len() {
                    let kept = ServiceView { batch: self.batch.push(o), ..self };
                    let m = kept.fetch_from(index + 1, now);
                    Transition {
                        state: m.state,
                        reply: ReplyView {
                            order: m.order,
                            notice: Some(NoticeView::Observed { line: line_text(o), readings }),
                        },
                    }
                } else {
                    ignored
                },
                _ => ignored,
            },
            InputView::FetchFailed(error) => match self.stage {
                Stage::Fetching { index } => if index < self.locations.len() {
                    let notice = Some(
                        NoticeView::FetchFailed {
                            location: self.locations[index as int].location,
                            error,
                        },
                    );
                    match self.policy {
                        FailurePolicy::Halt => Transition {
                            state: ServiceView {
                                scheduler: self.scheduler.after(Signal::Halt, now),
                                stage: Stage::Resting,
                                batch: Seq::empty(),
                                ..self
                            },
                            reply: ReplyView {
                                order: OrderView::Exit { failure: Some(Failure::Fetch(error)) },
                                notice,
                            },
                        },
                        FailurePolicy::Continue => {
                            let m = self.fetch_from(index + 1, now);
                            Transition {
                                state: m.state,
                                reply: ReplyView { order: m.order, notice },
                            }
                        },
                    }
                } else {
                    ignored
                },
                _ => ignored,
            },
            InputView::Written(ok) => match self.stage {
                Stage::Writing { next } => {
                    let error = failure_of(self.backend, self.batch.len() as int, next as int);
                    let noted = ServiceView {
                        sink_error: if ok || self.sink_error is Some {
                            self.sink_error
                        } else {
                            Some(error)
                        },
                        ..self
                    };
                    let notice = if ok {
                        None
                    } else {
                        Some(NoticeView::WriteFailed(error))
                    };
                    let calls = plan(self.backend, self.measurement, self.batch);
                    let m = if next + 1 < calls.len() {
                        Move {
                            state: ServiceView {
                                stage: Stage::Writing { next: (next + 1) as usize },
                                ..noted
                            },
                            order: OrderView::Store(calls[next + 1]),
                        }
                    } else {
                        noted.finish_tick(now)
                    };
                    Transition { state: m.state, reply: ReplyView { order: m.order, notice } }
                },
                _ => ignored,
            },
        }
    }

    /// Whether `input` is what the report `event` amounts to in this state. A
    /// page that was fetched for the location that is being fetched amounts to
    /// an observation of that location, read from that page in the form of
    /// markup of the service and stamped with a valid time.
    pub open spec fn refines(self, event: EventView, input: InputView) -> bool {
        match event {
            EventView::Start => input == InputView::Start,
            EventView::Timer => input == InputView::Timer,
            EventView::Written(ok) => input == InputView::Written(ok),
            EventView::Fetched(outcome) => match page_of(outcome) {
                Err(error) => input == InputView::FetchFailed(error),
                Ok(body) => match input {
                    InputView::Observed(o, readings) => match self.stage {
                        Stage::Fetching { index } => index < self.locations.len() ==> {
                            &&& reads_page(body, self.strategy, readings)
                            &&& o == observation_of(
                                self.locations[index as int].location,
                                o.time,
                                readings,
                            )
                            &&& valid_observation(o)
                        },
                        _ => true,
                    },
                    _ => false,
                },
            },
        }
    }
}

/// The polling service of one run.
#[derive(Debug)]
pub struct Service {
    base_url: String,
    measurement: String,
    strategy: Strategy,
    backend: Backend,
    policy: FailurePolicy,
    locations: Vec<LocationToken>,
    scheduler: Scheduler,
    stage: Stage,
    batch: Vec<VisitorCount>,
    sink_error: Option<SinkError>,
}

impl View for Service {
    type V = ServiceView;

    closed spec fn view(&self) -> ServiceView {
        ServiceView {
            base_url: self.base_url@,
            measurement: self.measurement@,
            strategy: self.strategy,
            backend: self.backend,
            policy: self.policy,
            locations: locations_of(self.locations@),
            scheduler: self.scheduler,
            stage: self.stage,
            batch: observations_of(self.batch@),
            sink_error: self.sink_error,
        }
    }
}

impl Service {
    /// The service of a run with the given options and locations, before its
    /// start. The locations are polled in the order in which they are given.
    pub fn new(settings: &Settings, locations: Vec<LocationToken>) -> (s: Service)
        ensures
            s@ == ServiceView::initial(
                settings.base_url@,
                settings.collection@,
                settings.strategy,
                settings.backend,
                settings.policy,
                settings.interval_seconds,
                settings.run_once,
                locations_of(locations@),
            ),
            s@.consistent(),
    {
        let s = Service {
            base_url: settings.base_url.clone(),
            measurement: settings.collection.clone(),
            strategy: settings.strategy,
            backend: settings.backend,
            policy: settings.policy,
            locations,
            scheduler: Scheduler::new(settings.interval_seconds, settings.run_once),
            stage: Stage::Resting,
            batch: Vec::new(),
            sink_error: None,
        };
        assert(observations_of(s.batch@) =~= Seq::<Observation>::empty());
        let count = s.locations.len();
        assert(s@.locations.len() == count);
        s
    }

    /// Where the tick stands.
    pub fn stage(&self) -> (r: Stage)
        ensures
            r == self@.stage,
    {
        self.stage
    }

    /// The scheduler of the run.
    pub fn scheduler(&self) -> (r: Scheduler)
        ensures
            r == self@.scheduler,
    {
        self.scheduler
    }

    /// How many observations the running tick has made so far.
    pub fn batch_len(&self) -> (r: usize)
        ensures
            r == self@.batch.len(),
    {
        self.batch.len()
    }

    /// How many locations the service polls.
    pub fn location_count(&self) -> (r: usize)
        ensures
            r == self@.locations.len(),
    {
        self.locations.len()
    }

    /// Computes `ServiceView::finish_tick`.
    fn finish_tick(&mut self, now: u64) -> (order: Order)
        ensures
            final(self)@ == old(self)@.finish_tick(now).state,
            order@ == old(self)@.finish_tick(now).order,
    {
        self.stage = Stage::Resting;
        self.batch = Vec::new();
        assert(observations_of(self.batch@) =~= Seq::<Observation>::empty());
        let halted = match self.sink_error {
            Some(error) => match self.policy {
                FailurePolicy::Halt => Some(error),
                FailurePolicy::Continue => None,
            },
            None => None,
        };
        if let Some(error) = halted {
            self.scheduler.step(Signal::Halt, now);
            Order::Exit { failure: Some(Failure::Sink(error)) }
        } else {
            match self.scheduler.step(Signal::TickDone, now) {
                Command::Sleep { until } => Order::Sleep { until },
                Command::Exit => Order::Exit { failure: None },
                _ => Order::Continue,
            }
        }
    }

    /// The number of calls in the sink's plan for the batch.
    fn plan_len(&self) -> (n: usize)
        ensures
            n == plan(self@.backend, self@.measurement, self@.batch).len(),
    {
        match self.backend {
            Backend::BatchAppend => 1,
            Backend::PointWrite => self.batch.len(),
        }
    }

    /// The call `i` of the sink's plan for the batch.
    fn call_at(&self, i: usize) -> (call: SinkCall)
        requires
            i < plan(self@.backend, self@.measurement, self@.batch).len(),
        ensures
            call@ == plan(self@.backend, self@.measurement, self@.batch)[i as int],
    {
        match self.backend {
            Backend::BatchAppend => SinkCall::InsertMany(to_records(&self.batch)),
            Backend::PointWrite => SinkCall::WritePoint(
                to_point(self.measurement.as_str(), &self.batch[i]),
            ),
        }
    }

    /// Computes `ServiceView::begin_writing`.
    fn begin_writing(&mut self, now: u64) -> (order: Order)
        ensures
            final(self)@ == old(self)@.begin_writing(now).state,
            order@ == old(self)@.begin_writing(now).order,
    {
        if self.plan_len() == 0 {
            self.finish_tick(now)
        } else {
            let call = self.call_at(0);
            self.stage = Stage::Writing { next: 0 };
            Order::Store(call)
        }
    }

    /// Computes `ServiceView::fetch_from`.
    fn fetch_from(&mut self, index: usize, now: u64) -> (order: Order)
        ensures
            final(self)@ == old(self)@.fetch_from(index as int, now).state,
            order@ == old(self)@.fetch_from(index as int, now).order,
    {
        if index < self.locations.len() {
            let url = site_url(self.base_url.as_str(), self.locations[index].token.as_str());
            self.stage = Stage::Fetching { index };
            Order::Fetch { url }
        } else {
            self.begin_writing(now)
        }
    }

    /// Takes an input at the instant `now`, a number of seconds on the
    /// driver's clock, moves on and returns what the driver is to do and to
    /// print.
    pub fn apply(&mut self, input: Input, now: u64) -> (reply: Reply)
        ensures
            final(self)@ == old(self)@.next(input@, now).state,
            reply@ == old(self)@.next(input@, now).reply,
            old(self)@.consistent() ==> final(self)@.consistent(),
    {
        proof {
            if self@.consistent() {
                lemma_next_is_consistent(self@, input@, now);
            }
        }
        match input {
            Input::Start => {
                let order = match self.scheduler.step(Signal::Start, now) {
                    Command::Sleep { until } => Order::Sleep { until },
                    Command::Exit => Order::Exit { failure: None },
                    _ => Order::Continue,
                };
                Reply { order, notice: None }
            },
            Input::Timer => {
                match self.scheduler.step(Signal::Timer, now) {
                    Command::RunTick => {
                        self.batch = Vec::new();
                        self.sink_error = None;
                        assert(observations_of(self.batch@) =~= Seq::<Observation>::empty());
                        let order = self.fetch_from(0, now);
                        Reply { order, notice: None }
                    },
                    Command::Sleep { until } => Reply {
                        order: Order::Sleep { until },
                        notice: None,
                    },
                    Command::Exit => Reply { order: Order::Exit { failure: None }, notice: None },
                    Command::Continue => Reply { order: Order::Continue, notice: None },
                }
            },
            Input::Observed(v, readings) => {
                match self.stage {
                    Stage::Fetching { index } => {
                        if index < self.locations.len() {
                            let line = v.to_line();
                            let ghost before = self.batch@;
                            self.batch.push(v);
                            assert(observations_of(self.batch@) =~= observations_of(before).push(
                                v@,
                            ));
                            let order = self.fetch_from(index + 1, now);
                            Reply { order, notice: Some(Notice::Observed { line, readings }) }
                        } else {
                            Reply { order: Order::Continue, notice: None }
                        }
                    },
                    _ => Reply { order: Order::Continue, notice: None },
                }
            },
            Input::FetchFailed(error) => {
                match self.stage {
                    Stage::Fetching { index } => {
                        if index < self.locations.len() {
                            let notice = Some(
                                Notice::FetchFailed {
                                    location: self.locations[index].location.clone(),
                                    error,
                                },
                            );
                            match self.policy {
                                FailurePolicy::Halt => {
                                    self.scheduler.step(Signal::Halt, now);
                                    self.stage = Stage::Resting;
                                    self.batch = Vec::new();
                                    assert(observations_of(self.batch@) =~= Seq::<
                                        Observation,
                                    >::empty());
                                    Reply {
                                        order: Order::Exit { failure: Some(Failure::Fetch(error)) },
                                        notice,
                                    }
                                },
                                FailurePolicy::Continue => {
                                    let order = self.fetch_from(index + 1, now);
                                    Reply { order, notice }
                                },
                            }
                        } else {
                            Reply { order: Order::Continue, notice: None }
                        }
                    },
                    _ => Reply { order: Order::Continue, notice: None },
                }
            },
            Input::Written(ok) => {
                match self.stage {
                    Stage::Writing { next } => {
                        let count = self.plan_len();
                        let error = match self.backend {
                            Backend::BatchAppend => SinkError::Batch { records: self.batch.len() },
                            Backend::PointWrite => SinkError::Point { index: next },
                        };
                        if !ok && self.sink_error.is_none() {
                            self.sink_error = Some(error);
                        }
                        let notice = if ok {
                            None
                        } else {
                            Some(Notice::WriteFailed(error))
                        };
                        let order = if next < count && next + 1 < count {
                            let call = self.call_at(next + 1);
                            self.stage = Stage::Writing { next: next + 1 };
                            Order::Store(call)
                        } else {
                            self.finish_tick(now)
                        };
                        Reply { order, notice }
                    },
                    _ => Reply { order: Order::Continue, notice: None },
                }
            },
        }
    }

    /// Takes a report of the driver at the instant `now`, a number of seconds
    /// on the driver's clock, moves on and returns what the driver is to do
    /// and to print.
    ///
    /// A page that was fetched for the location that is being fetched is read
    /// in the form of markup of the service and becomes an observation of
    /// that location, stamped with the time of the reading. What `apply` does
    /// with the resulting input is what `step` does.
    pub fn step(&mut self, event: Event, now: u64) -> (reply: Reply)
        ensures
            exists|input: InputView| #[trigger]
                old(self)@.refines(event@, input) && final(self)@ == old(self)@.next(
                    input,
                    now,
                ).state && reply@ == old(self)@.next(input, now).reply,
            old(self)@.consistent() ==> final(self)@.consistent(),
    {
        let ghost before = self@;
        match event {
            Event::Start => {
                assert(before.refines(event@, InputView::Start));
                self.apply(Input::Start, now)
            },
            Event::Timer => {
                assert(before.refines(event@, InputView::Timer));
                self.apply(Input::Timer, now)
            },
            Event::Written(ok) => {
                assert(before.refines(event@, InputView::Written(ok)));
                self.apply(Input::Written(ok), now)
            },
            Event::Fetched(outcome) => {
                match into_page(outcome) {
                    Err(error) => {
                        assert(before.refines(event@, InputView::FetchFailed(error)));
                        self.apply(Input::FetchFailed(error), now)
                    },
                    Ok(body) => {
                        match self.stage {
                            Stage::Fetching { index } => {
                                if index < self.locations.len() {
                                    let (v, readings) = VisitorCount::from_html(
                                        self.locations[index].location.as_str(),
                                        body.as_str(),
                                        self.strategy,
                                    );
                                    proof {
                                        v.lemma_valid();
                                        assert(before.refines(
                                            event@,
                                            InputView::Observed(v@, readings),
                                        ));
                                    }
                                    return self.apply(Input::Observed(v, readings), now);
                                }
                            },
                            _ => {},
                        }
                        proof {
                            let o: Observation = arbitrary();
                            let readings: PageReadings = arbitrary();
                            assert(before.refines(event@, InputView::Observed(o, readings)));
                            assert(before.next(InputView::Observed(o, readings), now).state
                                == before);
                        }
                        Reply { order: Order::Continue, notice: None }
                    },
                }
            },
        }
    }
}

/// An input and the instant at which it is taken.
pub struct Timed {
    pub input: InputView,
    pub now: u64,
}

/// The service after a sequence of inputs, first to last.
pub open spec fn feed(s: ServiceView, inputs: Seq<Timed>) -> ServiceView
    decreases inputs.len(),
{
    if inputs.len() == 0 {
        s
    } else {
        feed(s, inputs.drop_last()).next(inputs.last().input, inputs.last().now).state
    }
}

/// The order that answers the last of a sequence of inputs.
pub open spec fn last_order(s: ServiceView, inputs: Seq<Timed>) -> OrderView {
    if inputs.len() == 0 {
        OrderView::Continue
    } else {
        feed(s, inputs.drop_last()).next(inputs.last().input, inputs.last().now).reply.order
    }
}

/// How many ticks begin during a sequence of inputs.
pub open spec fn ticks_begun(s: ServiceView, inputs: Seq<Timed>) -> nat
    decreases inputs.len(),
{
    if inputs.len() == 0 {
        0
    } else {
        let before = feed(s, inputs.drop_last());
        let begun: nat = if inputs.last().input == InputView::Timer
            && before.scheduler.command_for(Signal::Timer, inputs.last().now) == Command::RunTick {
            1
        } else {
            0
        };
        ticks_begun(s, inputs.drop_last()) + begun
    }
}

/// Whether every input reports an observation.
pub open spec fn all_observed(inputs: Seq<Timed>) -> bool {
    forall|i: int| 0 <= i < inputs.len() ==> (#[trigger] inputs[i]).input is Observed
}

/// The observations that the inputs report, in their order.
pub open spec fn observations_in(inputs: Seq<Timed>) -> Seq<Observation> {
    inputs.map_values(|t: Timed| t.input->Observed_0)
}

/// The state in which the store has answered the first calls of a tick: the
/// batch is handed over, and each answer is taken in turn.
pub open spec fn written(s: ServiceView, answers: Seq<bool>, now: u64) -> ServiceView
    decreases answers.len(),
{
    if answers.len() == 0 {
        s.begin_writing(now).state
    } else {
        written(s, answers.drop_last(), now).next(InputView::Written(answers.last()), now).state
    }
}

/// The orders that the driver gets while a batch is written: the order that
/// hands the batch over, then the order that answers each answer of the store.
pub open spec fn writing_orders(s: ServiceView, answers: Seq<bool>, now: u64) -> Seq<OrderView>
    decreases answers.len(),
{
    if answers.len() == 0 {
        seq![s.begin_writing(now).order]
    } else {
        writing_orders(s, answers.drop_last(), now).push(
            written(s, answers.drop_last(), now).next(
                InputView::Written(answers.last()),
                now,
            ).reply.order,
        )
    }
}

/// The service is consistent before its start, whatever its options are,
/// provided that its locations are no more than a `Vec` can hold.
pub proof fn lemma_initial_is_consistent(s: ServiceView)
    requires
        s.locations.len() <= usize::MAX,
        s.scheduler.phase is Idle,
        s.stage is Resting,
        s.batch.len() == 0,
    ensures
        s.consistent(),
{
}

/// Every input leaves a consistent service consistent, and none changes the
/// locations or the options: in particular no tick ever makes more
/// observations than there are locations.
pub proof fn lemma_next_is_consistent(s: ServiceView, input: InputView, now: u64)
    requires
        s.consistent(),
    ensures
        s.next(input, now).state.consistent(),
        s.next(input, now).state.batch.len() <= s.locations.len(),
        s.next(input, now).state.locations == s.locations,
        s.next(input, now).state.base_url == s.base_url,
        s.next(input, now).state.measurement == s.measurement,
        s.next(input, now).state.strategy == s.strategy,
        s.next(input, now).state.backend == s.backend,
        s.next(input, now).state.policy == s.policy,
{
}

/// A service that runs once begins at most one tick, whatever the driver
/// reports and whatever the interval is.
pub proof fn lemma_once_begins_at_most_one_tick(s: ServiceView, inputs: Seq<Timed>)
    requires
        s.scheduler.mode == Mode::Once,
    ensures
        feed(s, inputs).scheduler.mode == Mode::Once,
        ticks_begun(s, inputs) + ticks_left(feed(s, inputs).scheduler) <= ticks_left(s.scheduler),
        ticks_begun(s, inputs) <= 1,
    decreases inputs.len(),
{
    if inputs.len() > 0 {
        lemma_once_begins_at_most_one_tick(s, inputs.drop_last());
    }
}

/// A timer that comes at or after the deadline begins a tick: the batch is
/// empty again, and the page of the first location is asked for, at the base
/// address with the token of that location behind it.
pub proof fn lemma_timer_begins_tick(s: ServiceView, now: u64)
    requires
        s.scheduler.phase matches Phase::Waiting { deadline } && now >= deadline,
        s.locations.len() > 0,
    ensures
        s.next(InputView::Timer, now).state.stage == (Stage::Fetching { index: 0 }),
        s.next(InputView::Timer, now).state.batch.len() == 0,
        s.next(InputView::Timer, now).state.scheduler.phase is Running,
        s.next(InputView::Timer, now).state.locations == s.locations,
        s.next(InputView::Timer, now).reply.order == (OrderView::Fetch {
            url: s.base_url + s.locations[0].token,
        }),
{
}

/// While locations are left, each observation joins the batch and the page
/// of the next location is asked for.
pub proof fn lemma_fetching_goes_on(s: ServiceView, inputs: Seq<Timed>)
    requires
        s.fits(),
        all_observed(inputs),
        s.stage matches Stage::Fetching { index } && index + inputs.len() < s.locations.len(),
    ensures
        ({
            let t = feed(s, inputs);
            &&& t.stage == (Stage::Fetching { index: (s.stage->index + inputs.len()) as usize })
            &&& t.batch == s.batch + observations_in(inputs)
            &&& t == ServiceView { stage: t.stage, batch: t.batch, ..s }
            &&& inputs.len() > 0 ==> last_order(s, inputs) == (OrderView::Fetch {
                url: s.base_url + s.locations[s.stage->index + inputs.len()].token,
            })
        }),
    decreases inputs.len(),
{
    if inputs.len() == 0 {
        assert(s.batch + observations_in(inputs) =~= s.batch);
    } else {
        let earlier = inputs.drop_last();
        assert(all_observed(earlier)) by {
            assert forall|i: int| 0 <= i < earlier.len() implies (#[trigger] earlier[i]).input
                is Observed by {
                assert(earlier[i] == inputs[i]);
            }
        }
        lemma_fetching_goes_on(s, earlier);
        assert(inputs[inputs.len() - 1].input is Observed);
        let mid = feed(s, earlier);
        assert(mid.batch.push(inputs.last().input->Observed_0) =~= s.batch + observations_in(
            inputs,
        ));
    }
}

/// A tick without fetch failures makes exactly one observation per location:
/// from the first request on, an observation for each location brings the
/// batch to the number of locations, in the order in which the observations
/// came, and then the batch is handed to the store.
pub proof fn lemma_tick_observes_every_location(s: ServiceView, inputs: Seq<Timed>)
    requires
        s.fits(),
        s.stage == (Stage::Fetching { index: 0 }),
        s.batch.len() == 0,
        all_observed(inputs),
        inputs.len() == s.locations.len(),
        inputs.len() > 0,
    ensures
        ({
            let before = feed(s, inputs.drop_last());
            let handed = ServiceView { batch: observations_in(inputs), ..before };
            &&& before.stage == (Stage::Fetching { index: (inputs.len() - 1) as usize })
            &&& before.batch == observations_in(inputs).drop_last()
            &&& before == ServiceView { stage: before.stage, batch: before.batch, ..s }
            &&& feed(s, inputs) == handed.begin_writing(inputs.last().now).state
            &&& feed(s, inputs).batch == observations_in(inputs)
            &&& feed(s, inputs).batch.len() == s.locations.len()
            &&& last_order(s, inputs) == handed.begin_writing(inputs.last().now).order
        }),
{
    let earlier = inputs.drop_last();
    assert(all_observed(earlier)) by {
        assert forall|i: int| 0 <= i < earlier.len() implies (#[trigger] earlier[i]).input
            is Observed by {
            assert(earlier[i] == inputs[i]);
        }
    }
    lemma_fetching_goes_on(s, earlier);
    assert(inputs[inputs.len() - 1].input is Observed);
    let before = feed(s, earlier);
    assert(s.batch + observations_in(earlier) =~= observations_in(earlier));
    assert(observations_in(earlier) =~= observations_in(inputs).drop_last());
    assert(before.batch.push(inputs.last().input->Observed_0) =~= observations_in(inputs));
}

/// Feeding a first input and then the rest is feeding the rest to the state
/// that the first input leads to.
pub proof fn lemma_feed_from_first(s: ServiceView, first: Timed, rest: Seq<Timed>)
    ensures
        feed(s, seq![first] + rest) == feed(s.next(first.input, first.now).state, rest),
        rest.len() > 0 ==> last_order(s, seq![first] + rest) == last_order(
            s.next(first.input, first.now).state,
            rest,
        ),
    decreases rest.len(),
{
    let all = seq![first] + rest;
    if rest.len() == 0 {
        assert(all.drop_last() =~= Seq::<Timed>::empty());
        assert(all.last() == first);
    } else {
        lemma_feed_from_first(s, first, rest.drop_last());
        assert(all.drop_last() =~= seq![first] + rest.drop_last());
        assert(all.last() == rest.last());
    }
}

/// Every tick of a run without fetch failures makes exactly one observation
/// per location: when the timer comes at or after the deadline and an
/// observation follows for each of the locations, the batch that is handed to
/// the store holds exactly these observations, as many as there are
/// locations and in the order in which they came.
pub proof fn lemma_tick_makes_one_observation_per_location(
    s: ServiceView,
    now: u64,
    inputs: Seq<Timed>,
)
    requires
        s.consistent(),
        s.scheduler.phase matches Phase::Waiting { deadline } && now >= deadline,
        all_observed(inputs),
        inputs.len() == s.locations.len(),
        inputs.len() > 0,
    ensures
        ({
            let timer = Timed { input: InputView::Timer, now };
            let tick = seq![timer] + inputs;
            let calls = plan(s.backend, s.measurement, observations_in(inputs));
            &&& ticks_begun(s, seq![timer]) == 1
            &&& feed(s, tick).batch == observations_in(inputs)
            &&& feed(s, tick).batch.len() == s.locations.len()
            &&& feed(s, tick).stage == (Stage::Writing { next: 0 })
            &&& last_order(s, tick) == OrderView::Store(calls[0])
        }),
{
    let timer = Timed { input: InputView::Timer, now };
    let begun = s.next(InputView::Timer, now).state;
    lemma_timer_begins_tick(s, now);
    lemma_next_is_consistent(s, InputView::Timer, now);
    lemma_feed_from_first(s, timer, inputs);
    lemma_tick_observes_every_location(begun, inputs);
    assert(seq![timer].drop_last() =~= Seq::<Timed>::empty());
    assert(feed(s, seq![timer].drop_last()) == s);
    assert(ticks_begun(s, seq![timer].drop_last()) == 0);
}

/// The store gets the calls of the sink's plan, each once and in the order of
/// the plan, whatever it answers: the batch is handed over with the first
/// call, each answer but the last is followed by the next call, and the last
/// answer ends the tick without another call.
pub proof fn lemma_writing_follows_plan(s: ServiceView, answers: Seq<bool>, now: u64)
    requires
        s.fits(),
        answers.len() <= plan(s.backend, s.measurement, s.batch).len(),
        plan(s.backend, s.measurement, s.batch).len() > 0,
    ensures
        ({
            let calls = plan(s.backend, s.measurement, s.batch);
            let orders = writing_orders(s, answers, now);
            let t = written(s, answers, now);
            &&& orders.len() == answers.len() + 1
            &&& forall|i: int|
                0 <= i < orders.len() && i < calls.len() ==> #[trigger] orders[i]
                    == OrderView::Store(calls[i])
            &&& answers.len() < calls.len() ==> t.stage == (Stage::Writing {
                next: answers.len() as usize,
            })
            &&& answers.len() < calls.len() ==> t.batch == s.batch
            &&& answers.len() == calls.len() ==> t.stage == Stage::Resting && t.batch.len() == 0
                && !(orders.last() is Store)
            &&& t.backend == s.backend && t.measurement == s.measurement
        }),
    decreases answers.len(),
{
    let calls = plan(s.backend, s.measurement, s.batch);
    if answers.len() > 0 {
        lemma_writing_follows_plan(s, answers.drop_last(), now);
        let earlier = writing_orders(s, answers.drop_last(), now);
        let orders = writing_orders(s, answers, now);
        assert forall|i: int| 0 <= i < orders.len() && i < calls.len() implies #[trigger] orders[i]
            == OrderView::Store(calls[i]) by {
            if i < earlier.len() {
                assert(orders[i] == earlier[i]);
            }
        }
    }
}

/// A batch-append store gets one call per tick, and that call carries the
/// record of every observation of the tick, in the order of the batch.
pub proof fn lemma_batch_append_writes_once(s: ServiceView, ok: bool, now: u64)
    requires
        s.fits(),
        s.backend == Backend::BatchAppend,
    ensures
        s.begin_writing(now).order == OrderView::Store(
            SinkCallView::InsertMany(records_of(s.batch)),
        ),
        records_of(s.batch).len() == s.batch.len(),
        written(s, seq![ok], now).stage == Stage::Resting,
        !(writing_orders(s, seq![ok], now).last() is Store),
{
    lemma_writing_follows_plan(s, seq![ok], now);
    lemma_writing_follows_plan(s, Seq::<bool>::empty(), now);
    assert(seq![ok].drop_last() =~= Seq::<bool>::empty());
}

/// A point-write store gets one call per observation of the tick: the call
/// number `i` carries the point of the observation number `i`, whatever the
/// store answered to the calls before it.
pub proof fn lemma_point_write_writes_each(s: ServiceView, answers: Seq<bool>, now: u64)
    requires
        s.fits(),
        s.backend == Backend::PointWrite,
        answers.len() < s.batch.len(),
    ensures
        writing_orders(s, answers, now).last() == OrderView::Store(
            SinkCallView::WritePoint(point_of(s.measurement, s.batch[answers.len() as int])),
        ),
{
    lemma_writing_follows_plan(s, answers, now);
}

} // verus!
