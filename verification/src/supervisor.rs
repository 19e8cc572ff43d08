//! The connection supervisor: a state machine that is told what happened and
//! says what to do next.
//!
//! The supervisor starts disconnected. It asks for a connection, and while
//! connected it asks for one frame after another and takes each through
//! decoding, parsing, encoding, publishing and metering. A fault of the
//! transport gives the connection up: the supervisor waits the retry delay
//! and connects again, without end. A fault of one message drops that message
//! and the connection stays.

use vstd::prelude::*;
use crate::decoder::{decode_frame, decoded, DecodeError};
use crate::encoder::{encoded_line, packet_to_influx, EncodeError};
use crate::envelope::{Envelope, EnvelopeView};
use crate::packet::{Packet, PacketView, ParseFailure};
use crate::rate::{local_minute, metered, RateCounter, RateView};
use crate::schema::{Schema, TextFault};
use crate::timestamp::{strptime_timespec, timestamp_format};

verus! {

/// The seconds to wait before connecting again, unless configured otherwise.
pub const RETRY_DELAY_SECS: u64 = 10;

/// The seconds after which a read from the socket is given up.
pub const READ_TIMEOUT_SECS: u64 = 10;

/// The state of the connection.
#[derive(Debug, Clone, Copy, PartialEq, Eq, Structural)]
pub enum Phase {
    Disconnected,
    Connecting,
    Connected,
}

/// Why a record was not published.
#[derive(Debug, Clone, Copy, PartialEq, Eq, Structural)]
pub enum PublishFailure {
    /// The request could not be sent.
    Transport,
    /// The response could not be read.
    Response,
}

/// The outcome of an attempt to publish: a record is published where the
/// request was sent and the response was read. A request that could not be
/// sent fails for the transport, whatever is said of the response.
pub open spec fn outcome_of(sent: bool, response_read: bool) -> Result<(), PublishFailure> {
    if !sent {
        Err(PublishFailure::Transport)
    } else if !response_read {
        Err(PublishFailure::Response)
    } else {
        Ok(())
    }
}

/// The outcome of an attempt to publish, from whether the request was sent
/// and whether the response was read.
pub fn publish_outcome(
    sent: bool,
    response_read: bool,
) -> (outcome: Result<(), PublishFailure>)
    ensures
        outcome == outcome_of(sent, response_read),
{
    if !sent {
        Err(PublishFailure::Transport)
    } else if !response_read {
        Err(PublishFailure::Response)
    } else {
        Ok(())
    }
}

/// What the supervisor waits for.
#[derive(Debug, Clone, PartialEq, Eq)]
pub enum Stage {
    /// Disconnected: the start of the process, or the end of the wait.
    Disconnected,
    /// Whether the connection was opened.
    Connecting,
    /// Connected: the next frame.
    Reading,
    /// Connected: the packet of this envelope's sentence.
    Parsing(Envelope),
    /// Connected: whether the record of a packet was published.
    Publishing,
    /// Connected: the end of the attempt to publish a rate record.
    Reporting,
}

pub enum StageView {
    Disconnected,
    Connecting,
    Reading,
    Parsing(EnvelopeView),
    Publishing,
    Reporting,
}

impl View for Stage {
    type V = StageView;

    open spec fn view(&self) -> StageView {
        match *self {
            Stage::Disconnected => StageView::Disconnected,
            Stage::Connecting => StageView::Connecting,
            Stage::Reading => StageView::Reading,
            Stage::Parsing(envelope) => StageView::Parsing(envelope@),
            Stage::Publishing => StageView::Publishing,
            Stage::Reporting => StageView::Reporting,
        }
    }
}

/// The state of the connection at a stage.
pub open spec fn phase_of(stage: StageView) -> Phase {
    match stage {
        StageView::Disconnected => Phase::Disconnected,
        StageView::Connecting => Phase::Connecting,
        StageView::Reading => Phase::Connected,
        StageView::Parsing(_) => Phase::Connected,
        StageView::Publishing => Phase::Connected,
        StageView::Reporting => Phase::Connected,
    }
}

/// What happened.
#[derive(Debug, PartialEq, Eq)]
pub enum Event {
    /// The process has started, or the wait is over.
    Wake,
    /// The connection could not be opened or set up.
    ConnectFailed,
    /// The connection is open and its read timeout is set.
    Connected,
    /// No frame could be read: the read failed, ran out of time, or the
    /// stream has ended.
    ReadFailed,
    /// One frame was read.
    Frame(Vec<u8>),
    /// The sentence was parsed, or could not be.
    Parsed(Result<Packet, ParseFailure>),
    /// The record was published, or could not be.
    Published(Result<(), PublishFailure>),
}

pub enum EventView {
    Wake,
    ConnectFailed,
    Connected,
    ReadFailed,
    Frame(Seq<u8>),
    Parsed(Result<PacketView, ParseFailure>),
    Published(Result<(), PublishFailure>),
}

impl View for Event {
    type V = EventView;

    open spec fn view(&self) -> EventView {
        match *self {
            Event::Wake => EventView::Wake,
            Event::ConnectFailed => EventView::ConnectFailed,
            Event::Connected => EventView::Connected,
            Event::ReadFailed => EventView::ReadFailed,
            Event::Frame(bytes) => EventView::Frame(bytes@),
            Event::Parsed(Ok(packet)) => EventView::Parsed(Ok(packet@)),
            Event::Parsed(Err(failure)) => EventView::Parsed(Err(failure)),
            Event::Published(outcome) => EventView::Published(outcome),
        }
    }
}

/// What to do next.
#[derive(Debug, Clone, PartialEq, Eq)]
pub enum Action {
    /// Open the connection and set its read timeout; give up a connection
    /// that is still open.
    Connect,
    /// Give up the connection and wait this many seconds.
    Wait(u64),
    /// Read the next frame from the connection.
    ReadFrame,
    /// Parse this sentence.
    Parse(String),
    /// Publish this record.
    Publish(String),
}

pub enum ActionView {
    Connect,
    Wait(nat),
    ReadFrame,
    Parse(Seq<char>),
    Publish(Seq<char>),
}

impl View for Action {
    type V = ActionView;

    open spec fn view(&self) -> ActionView {
        match *self {
            Action::Connect => ActionView::Connect,
            Action::Wait(seconds) => ActionView::Wait(seconds as nat),
            Action::ReadFrame => ActionView::ReadFrame,
            Action::Parse(sentence) => ActionView::Parse(sentence@),
            Action::Publish(line) => ActionView::Publish(line@),
        }
    }
}

/// What went wrong, for the log.
#[derive(Debug, Clone, Copy, PartialEq, Eq, Structural)]
pub enum Fault {
    Connect,
    Read,
    Decode(DecodeError),
    Parse(ParseFailure),
    Encode(EncodeError),
    Publish(PublishFailure),
    /// The event is not one that the supervisor was waiting for.
    Unexpected,
}

/// The answer to an event: what to do next, and the fault to log, if the
/// event was one.
#[derive(Debug, Clone, PartialEq, Eq)]
pub struct Step {
    pub action: Action,
    pub fault: Option<Fault>,
}

pub struct StepView {
    pub action: ActionView,
    pub fault: Option<Fault>,
}

impl View for Step {
    type V = StepView;

    open spec fn view(&self) -> StepView {
        StepView { action: self.action@, fault: self.fault }
    }
}

/// The connection supervisor.
#[derive(Debug, Clone, PartialEq, Eq)]
pub struct Supervisor {
    pub schema: Schema,
    /// The seconds to wait before connecting again.
    pub retry_delay: u64,
    pub stage: Stage,
    pub counter: RateCounter,
}

pub struct SupervisorView {
    pub schema: Schema,
    pub retry_delay: nat,
    pub stage: StageView,
    pub counter: RateView,
}

impl View for Supervisor {
    type V = SupervisorView;

    open spec fn view(&self) -> SupervisorView {
        SupervisorView {
            schema: self.schema,
            retry_delay: self.retry_delay as nat,
            stage: self.stage@,
            counter: self.counter@,
        }
    }
}

/// The supervisor at another stage.
pub open spec fn at_stage(s: SupervisorView, stage: StageView) -> SupervisorView {
    SupervisorView { stage, ..s }
}

/// The connection is given up: wait, then connect again.
pub open spec fn give_up(s: SupervisorView, fault: Fault) -> (SupervisorView, StepView) {
    (
        at_stage(s, StageView::Disconnected),
        StepView { action: ActionView::Wait(s.retry_delay), fault: Some(fault) },
    )
}

/// The message is dropped: read the next frame.
pub open spec fn drop_message(s: SupervisorView, fault: Fault) -> (SupervisorView, StepView) {
    (
        at_stage(s, StageView::Reading),
        StepView { action: ActionView::ReadFrame, fault: Some(fault) },
    )
}

/// The message is done: read the next frame.
pub open spec fn read_on(s: SupervisorView) -> (SupervisorView, StepView) {
    (at_stage(s, StageView::Reading), StepView { action: ActionView::ReadFrame, fault: None })
}

/// Whether a failure to decode is a fault of the transport: only text that
/// is not valid, and only where the protocol version says so.
pub open spec fn gives_up_on(schema: Schema, e: DecodeError) -> bool {
    e == DecodeError::InvalidText && schema.invalid_text == TextFault::Transport
}

/// What a frame leads to. A frame that is not valid text gives the
/// connection up where the protocol version says so; any other failure to
/// decode drops the frame.
pub open spec fn on_frame(s: SupervisorView, frame: Seq<u8>) -> (SupervisorView, StepView) {
    match decoded(s.schema, frame) {
        Ok(envelope) => (
            at_stage(s, StageView::Parsing(envelope)),
            StepView { action: ActionView::Parse(envelope.sentence), fault: None },
        ),
        Err(e) => if gives_up_on(s.schema, e) {
            give_up(s, Fault::Decode(e))
        } else {
            drop_message(s, Fault::Decode(e))
        },
    }
}

/// What a parsed sentence leads to: its record is published, or the message
/// is dropped where there is no packet or no record.
pub open spec fn on_parsed(
    s: SupervisorView,
    envelope: EnvelopeView,
    parsed: Result<PacketView, ParseFailure>,
) -> (SupervisorView, StepView) {
    match parsed {
        Err(failure) => drop_message(s, Fault::Parse(failure)),
        Ok(packet) => match encoded_line(
            s.schema,
            envelope,
            packet,
            strptime_timespec(envelope.timestamp, timestamp_format()),
        ) {
            Err(e) => drop_message(s, Fault::Encode(e)),
            Ok(line) => (
                at_stage(s, StageView::Publishing),
                StepView { action: ActionView::Publish(line), fault: None },
            ),
        },
    }
}

/// What the end of publishing a packet's record leads to. A record that was
/// published is counted in the minute `minute`, and the rate of the minute
/// that has passed is published next, if one has passed.
pub open spec fn on_published(
    s: SupervisorView,
    outcome: Result<(), PublishFailure>,
    minute: int,
) -> (SupervisorView, StepView) {
    match outcome {
        Err(failure) => drop_message(s, Fault::Publish(failure)),
        Ok(_) => {
            let counted = SupervisorView { counter: metered(s.counter, minute).0, ..s };
            match metered(s.counter, minute).1 {
                Some(line) => (
                    at_stage(counted, StageView::Reporting),
                    StepView { action: ActionView::Publish(line), fault: None },
                ),
                None => read_on(counted),
            }
        },
    }
}

/// The state after an event and the answer to it. `minute` is the minute
/// of the wall clock at the event; it matters only where the record of a
/// packet was published.
pub open spec fn transition(
    s: SupervisorView,
    event: EventView,
    minute: int,
) -> (SupervisorView, StepView) {
    match (s.stage, event) {
        (StageView::Disconnected, EventView::Wake) => (
            at_stage(s, StageView::Connecting),
            StepView { action: ActionView::Connect, fault: None },
        ),
        (StageView::Connecting, EventView::Connected) => read_on(s),
        (StageView::Connecting, EventView::ConnectFailed) => give_up(s, Fault::Connect),
        (StageView::Reading, EventView::ReadFailed) => give_up(s, Fault::Read),
        (StageView::Reading, EventView::Frame(frame)) => on_frame(s, frame),
        (StageView::Parsing(envelope), EventView::Parsed(parsed)) => on_parsed(s, envelope, parsed),
        (StageView::Publishing, EventView::Published(outcome)) => on_published(s, outcome, minute),
        (StageView::Reporting, EventView::Published(_)) => read_on(s),
        _ => give_up(s, Fault::Unexpected),
    }
}

/// Whether the event is the successful end of publishing a packet's record:
/// the one event at which a message is counted.
pub open spec fn counts_message(s: SupervisorView, event: EventView) -> bool {
    s.stage is Publishing && event matches EventView::Published(Ok(_))
}

impl Supervisor {
    /// A supervisor that is disconnected and has counted nothing.
    pub fn new(schema: Schema, retry_delay: u64) -> (supervisor: Supervisor)
        ensures
            supervisor@ == (SupervisorView {
                schema,
                retry_delay: retry_delay as nat,
                stage: StageView::Disconnected,
                counter: crate::rate::fresh(),
            }),
    {
        Supervisor {
            schema,
            retry_delay,
            stage: Stage::Disconnected,
            counter: RateCounter::new(),
        }
    }

    /// The state of the connection.
    pub fn phase(&self) -> (phase: Phase)
        ensures
            phase == phase_of(self@.stage),
    {
        match &self.stage {
            Stage::Disconnected => Phase::Disconnected,
            Stage::Connecting => Phase::Connecting,
            Stage::Reading => Phase::Connected,
            Stage::Parsing(_) => Phase::Connected,
            Stage::Publishing => Phase::Connected,
            Stage::Reporting => Phase::Connected,
        }
    }

    fn give_up(&mut self, fault: Fault) -> (step: Step)
        ensures
            (final(self)@, step@) == give_up(old(self)@, fault),
    {
        self.stage = Stage::Disconnected;
        Step { action: Action::Wait(self.retry_delay), fault: Some(fault) }
    }

    fn drop_message(&mut self, fault: Fault) -> (step: Step)
        ensures
            (final(self)@, step@) == drop_message(old(self)@, fault),
    {
        self.stage = Stage::Reading;
        Step { action: Action::ReadFrame, fault: Some(fault) }
    }

    fn read_on(&mut self) -> (step: Step)
        ensures
            (final(self)@, step@) == read_on(old(self)@),
    {
        self.stage = Stage::Reading;
        Step { action: Action::ReadFrame, fault: None }
    }

    fn on_frame(&mut self, frame: &Vec<u8>) -> (step: Step)
        ensures
            (final(self)@, step@) == on_frame(old(self)@, frame@),
    {
        match decode_frame(&self.schema, frame.as_slice()) {
            Ok(envelope) => {
                let sentence: String = envelope.sentence.clone();
                self.stage = Stage::Parsing(envelope);
                Step { action: Action::Parse(sentence), fault: None }
            },
            Err(e) => {
                let transport: bool = match (e, self.schema.invalid_text) {
                    (DecodeError::InvalidText, TextFault::Transport) => true,
                    _ => false,
                };
                if transport {
                    self.give_up(Fault::Decode(e))
                } else {
                    self.drop_message(Fault::Decode(e))
                }
            },
        }
    }

    fn on_parsed(
        &mut self,
        envelope: &Envelope,
        parsed: Result<Packet, ParseFailure>,
    ) -> (step: Step)
        ensures
            (final(self)@, step@) == on_parsed(
                old(self)@,
                envelope@,
                match parsed {
                    Ok(packet) => Ok(packet@),
                    Err(failure) => Err(failure),
                },
            ),
    {
        match parsed {
            Err(failure) => self.drop_message(Fault::Parse(failure)),
            Ok(packet) => match packet_to_influx(&self.schema, envelope, &packet) {
                Err(e) => self.drop_message(Fault::Encode(e)),
                Ok(line) => {
                    self.stage = Stage::Publishing;
                    Step { action: Action::Publish(line), fault: None }
                },
            },
        }
    }

    fn on_published(
        &mut self,
        outcome: Result<(), PublishFailure>,
        minute: i32,
    ) -> (step: Step)
        requires
            outcome is Ok ==> old(self).counter.has_room(minute as int),
        ensures
            (final(self)@, step@) == on_published(old(self)@, outcome, minute as int),
    {
        match outcome {
            Err(failure) => self.drop_message(Fault::Publish(failure)),
            Ok(_) => match self.counter.meter(minute) {
                Some(line) => {
                    self.stage = Stage::Reporting;
                    Step { action: Action::Publish(line), fault: None }
                },
                None => self.read_on(),
            },
        }
    }

    /// Takes an event that happened in the minute `minute` of the wall clock
    /// and answers it.
    pub fn advance(&mut self, event: Event, minute: i32) -> (step: Step)
        requires
            counts_message(old(self)@, event@) ==> old(self).counter.has_room(minute as int),
        ensures
            (final(self)@, step@) == transition(old(self)@, event@, minute as int),
    {
        let mut stage: Stage = Stage::Disconnected;
        std::mem::swap(&mut self.stage, &mut stage);
        match (stage, event) {
            (Stage::Disconnected, Event::Wake) => {
                self.stage = Stage::Connecting;
                Step { action: Action::Connect, fault: None }
            },
            (Stage::Connecting, Event::Connected) => self.read_on(),
            (Stage::Connecting, Event::ConnectFailed) => self.give_up(Fault::Connect),
            (Stage::Reading, Event::ReadFailed) => self.give_up(Fault::Read),
            (Stage::Reading, Event::Frame(frame)) => self.on_frame(&frame),
            (Stage::Parsing(envelope), Event::Parsed(parsed)) => self.on_parsed(&envelope, parsed),
            (Stage::Publishing, Event::Published(outcome)) => self.on_published(outcome, minute),
            (Stage::Reporting, Event::Published(_)) => self.read_on(),
            _ => self.give_up(Fault::Unexpected),
        }
    }

    /// Whether the supervisor can take the event now: an event that counts a
    /// message needs room for it in the count.
    pub open spec fn accepts_spec(self, event: EventView) -> bool {
        counts_message(self@, event) ==> self.counter.count < u32::MAX
    }

    /// Whether the supervisor can take the event now. It can take every
    /// event but the one that would count a message beyond `u32::MAX` in
    /// one minute.
    pub fn accepts(&self, event: &Event) -> (ok: bool)
        ensures
            ok == self.accepts_spec(event@),
    {
        match (&self.stage, event) {
            (Stage::Publishing, Event::Published(Ok(_))) => self.counter.count < u32::MAX,
            _ => true,
        }
    }

    /// Takes an event that happened now and answers it. Where the event
    /// counts a message, the minute is read from the wall clock.
    pub fn step(&mut self, event: Event) -> (step: Step)
        requires
            old(self).accepts_spec(event@),
        ensures
            exists|minute: int|
                0 <= minute <= 59 && (final(self)@, step@) == #[trigger] transition(
                    old(self)@,
                    event@,
                    minute,
                ),
    {
        let counts: bool = match (&self.stage, &event) {
            (Stage::Publishing, Event::Published(Ok(_))) => true,
            _ => false,
        };
        let minute: i32 = if counts {
            local_minute()
        } else {
            0
        };
        let step: Step = self.advance(event, minute);
        step
    }
}

/// Whether a fault is one of the transport: a connection that cannot be
/// opened or read, text that is not valid where the protocol version takes
/// that for a broken stream, and an event that was not awaited. Every other
/// fault is one of a single message.
pub open spec fn is_transport_fault(schema: Schema, fault: Fault) -> bool {
    match fault {
        Fault::Connect => true,
        Fault::Read => true,
        Fault::Unexpected => true,
        Fault::Decode(e) => gives_up_on(schema, e),
        Fault::Parse(_) => false,
        Fault::Encode(_) => false,
        Fault::Publish(_) => false,
    }
}

/// Whatever the state and the event: a fault of the transport leaves the
/// supervisor disconnected and asking to wait the retry delay, and a fault of
/// a message leaves it connected and asking for the next frame. Neither
/// changes the count of published messages.
pub proof fn lemma_faults_by_class(s: SupervisorView, event: EventView, minute: int)
    ensures
        transition(s, event, minute).1.fault matches Some(fault) ==> transition(s, event, minute)
            == (if is_transport_fault(s.schema, fault) {
            (
                at_stage(s, StageView::Disconnected),
                StepView { action: ActionView::Wait(s.retry_delay), fault: Some(fault) },
            )
        } else {
            (
                at_stage(s, StageView::Reading),
                StepView { action: ActionView::ReadFrame, fault: Some(fault) },
            )
        }),
{
}

/// The supervisor after `losses` rounds in which the read failed, the wait
/// passed and the connection was opened again.
pub open spec fn after_lost_connections(s: SupervisorView, losses: nat) -> SupervisorView
    decreases losses,
{
    if losses == 0 {
        s
    } else {
        let again = after_lost_connections(s, (losses - 1) as nat);
        let waiting = transition(again, EventView::ReadFailed, 0).0;
        let connecting = transition(waiting, EventView::Wake, 0).0;
        transition(connecting, EventView::Connected, 0).0
    }
}

/// A read that fails while the supervisor waits for a frame gives the
/// connection up: the supervisor is disconnected and asks to wait the retry
/// delay. When the wait is over it asks to connect again. However often the
/// connection is lost in this way, the supervisor reads again once it is
/// connected, as it did at first.
pub proof fn lemma_read_fault_reconnects(
    s: SupervisorView,
    minute: int,
    later: int,
    losses: nat,
)
    requires
        s.stage is Reading,
    ensures
        transition(s, EventView::ReadFailed, minute) == give_up(s, Fault::Read),
        phase_of(give_up(s, Fault::Read).0.stage) == Phase::Disconnected,
        give_up(s, Fault::Read).1.action == ActionView::Wait(s.retry_delay),
        transition(give_up(s, Fault::Read).0, EventView::Wake, later) == (
            at_stage(s, StageView::Connecting),
            StepView { action: ActionView::Connect, fault: None },
        ),
        after_lost_connections(s, losses) == s,
    decreases losses,
{
    if losses > 0 {
        lemma_read_fault_reconnects(s, minute, later, (losses - 1) as nat);
    }
}

/// The supervisor after `attempts` attempts to connect that all failed, each
/// followed by the wait.
pub open spec fn after_failed_attempts(s: SupervisorView, attempts: nat) -> SupervisorView
    decreases attempts,
{
    if attempts == 0 {
        s
    } else {
        let again = after_failed_attempts(s, (attempts - 1) as nat);
        transition(transition(again, EventView::ConnectFailed, 0).0, EventView::Wake, 0).0
    }
}

/// The supervisor never gives up: however many attempts to connect have
/// failed, it is connecting again, as it was at the first. Each failure is
/// answered by the wait of the retry delay, and the end of each wait by the
/// next attempt.
pub proof fn lemma_never_gives_up(s: SupervisorView, attempts: nat)
    requires
        s.stage is Connecting,
    ensures
        after_failed_attempts(s, attempts) == s,
        transition(s, EventView::ConnectFailed, 0) == give_up(s, Fault::Connect),
        give_up(s, Fault::Connect).1.action == ActionView::Wait(s.retry_delay),
        transition(give_up(s, Fault::Connect).0, EventView::Wake, 0) == (
            s,
            StepView { action: ActionView::Connect, fault: None },
        ),
    decreases attempts,
{
    if attempts > 0 {
        lemma_never_gives_up(s, (attempts - 1) as nat);
    }
}

/// A record that could not be published is dropped: the supervisor stays
/// connected, counts nothing, and asks for the next frame. That frame is
/// taken as any frame is.
pub proof fn lemma_publish_failure_keeps_connection(
    s: SupervisorView,
    failure: PublishFailure,
    minute: int,
    next: Seq<u8>,
    later: int,
)
    requires
        s.stage is Publishing,
    ensures
        transition(s, EventView::Published(Err(failure)), minute) == (
            at_stage(s, StageView::Reading),
            StepView { action: ActionView::ReadFrame, fault: Some(Fault::Publish(failure)) },
        ),
        phase_of(StageView::Reading) == Phase::Connected,
        transition(at_stage(s, StageView::Reading), EventView::Frame(next), later) == on_frame(
            at_stage(s, StageView::Reading),
            next,
        ),
{
}

/// The supervisor asks to publish in two cases only: the record of a packet
/// that has a path and a timestamp that was read, when its sentence was
/// parsed; and the rate record of a minute that has passed, when the record
/// of a packet was published.
pub proof fn lemma_publish_only_a_record(s: SupervisorView, event: EventView, minute: int)
    ensures
        transition(s, event, minute).1.action matches ActionView::Publish(line) ==> ({
            ||| {
                &&& s.stage matches StageView::Parsing(envelope)
                &&& event matches EventView::Parsed(Ok(packet))
                &&& packet.path.len() > 0
                &&& encoded_line(
                    s.schema,
                    envelope,
                    packet,
                    strptime_timespec(envelope.timestamp, timestamp_format()),
                ) == Ok::<Seq<char>, EncodeError>(line)
            }
            ||| {
                &&& s.stage is Publishing
                &&& event matches EventView::Published(Ok(_))
                &&& metered(s.counter, minute).1 == Some(line)
            }
        }),
{
}

/// A packet with an empty path is never published: the message is dropped
/// for the missing path and the supervisor asks for the next frame.
pub proof fn lemma_empty_path_not_published(
    s: SupervisorView,
    envelope: EnvelopeView,
    packet: PacketView,
    minute: int,
)
    requires
        s.stage == StageView::Parsing(envelope),
        packet.path.len() == 0,
    ensures
        transition(s, EventView::Parsed(Ok(packet)), minute) == (
            at_stage(s, StageView::Reading),
            StepView {
                action: ActionView::ReadFrame,
                fault: Some(Fault::Encode(EncodeError::MissingPath)),
            },
        ),
{
}

} // verus!
