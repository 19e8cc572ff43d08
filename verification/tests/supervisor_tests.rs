use ukhasnet_influxdb::decoder::{DecodeError, EnvelopeField};
use ukhasnet_influxdb::encoder::EncodeError;
use ukhasnet_influxdb::packet::{DataField, Packet, ParseFailure};
use ukhasnet_influxdb::rate::RateCounter;
use ukhasnet_influxdb::schema::{Framing, Schema, TextFault};
use ukhasnet_influxdb::supervisor::{
    publish_outcome, Action, Event, Fault, Phase, PublishFailure, Stage, Step, Supervisor,
    READ_TIMEOUT_SECS, RETRY_DELAY_SECS,
};

const FRAME: &[u8] =
    b"{\"nn\":\"GW1\",\"p\":\"3bT21.5[AB]\",\"r\":-87,\"t\":\"2021-05-01T12:00:00.500Z\",\"a\":2}\n";

const LINE: &str = "packet,gateway=GW1,node=AB,pathend=AB gw_rssi=-87i,gw_age=2i,\
                    temperature_1_1=21.5,sentence=\"3bT21.5[AB]\" 1619870400500000000";

fn packet() -> Packet {
    Packet {
        path: vec!["AB".to_string()],
        data: vec![DataField::Temperature(vec!["21.5".to_string()])],
        comment: None,
    }
}

fn quiet(action: Action) -> Step {
    Step { action, fault: None }
}

fn faulty(action: Action, fault: Fault) -> Step {
    Step { action, fault: Some(fault) }
}

fn connected() -> Supervisor {
    let mut supervisor = Supervisor::new(Schema::default(), RETRY_DELAY_SECS);
    assert_eq!(supervisor.advance(Event::Wake, 0), quiet(Action::Connect));
    assert_eq!(supervisor.advance(Event::Connected, 0), quiet(Action::ReadFrame));
    supervisor
}

fn publishing(minute: i32) -> Supervisor {
    let mut supervisor = connected();
    supervisor.advance(Event::Frame(FRAME.to_vec()), minute);
    supervisor.advance(Event::Parsed(Ok(packet())), minute);
    assert_eq!(supervisor.stage, Stage::Publishing);
    supervisor
}

#[test]
fn delays_are_ten_seconds() {
    assert_eq!(RETRY_DELAY_SECS, 10);
    assert_eq!(READ_TIMEOUT_SECS, 10);
}

#[test]
fn supervisor_starts_disconnected_and_connects() {
    let mut supervisor = Supervisor::new(Schema::default(), 10);
    assert_eq!(supervisor.phase(), Phase::Disconnected);
    assert_eq!(supervisor.stage, Stage::Disconnected);
    assert_eq!(supervisor.counter, RateCounter::new());
    assert_eq!(supervisor.advance(Event::Wake, 0), quiet(Action::Connect));
    assert_eq!(supervisor.phase(), Phase::Connecting);
    assert_eq!(supervisor.advance(Event::Connected, 0), quiet(Action::ReadFrame));
    assert_eq!(supervisor.phase(), Phase::Connected);
}

#[test]
fn frame_goes_through_decoding_parsing_and_publishing() {
    let mut supervisor = connected();
    assert_eq!(
        supervisor.advance(Event::Frame(FRAME.to_vec()), 5),
        quiet(Action::Parse("3bT21.5[AB]".to_string()))
    );
    assert_eq!(supervisor.phase(), Phase::Connected);
    assert_eq!(
        supervisor.advance(Event::Parsed(Ok(packet())), 5),
        quiet(Action::Publish(LINE.to_string()))
    );
    assert_eq!(supervisor.advance(Event::Published(Ok(())), 5), quiet(Action::ReadFrame));
    assert_eq!(supervisor.counter, RateCounter { count: 1, minute: Some(5) });
    assert_eq!(supervisor.stage, Stage::Reading);
}

#[test]
fn read_timeout_disconnects_waits_and_connects_again() {
    let mut supervisor = Supervisor::new(Schema::default(), 10);
    supervisor.advance(Event::Wake, 0);
    supervisor.advance(Event::Connected, 0);
    for _ in 0..50 {
        assert_eq!(
            supervisor.advance(Event::ReadFailed, 0),
            faulty(Action::Wait(10), Fault::Read)
        );
        assert_eq!(supervisor.phase(), Phase::Disconnected);
        assert_eq!(supervisor.advance(Event::Wake, 0), quiet(Action::Connect));
        assert_eq!(supervisor.phase(), Phase::Connecting);
        assert_eq!(supervisor.advance(Event::Connected, 0), quiet(Action::ReadFrame));
        assert_eq!(supervisor.phase(), Phase::Connected);
    }
}

#[test]
fn failed_connection_is_tried_again_without_end() {
    let mut supervisor = Supervisor::new(Schema::default(), 3);
    assert_eq!(supervisor.advance(Event::Wake, 0), quiet(Action::Connect));
    for _ in 0..1000 {
        assert_eq!(
            supervisor.advance(Event::ConnectFailed, 0),
            faulty(Action::Wait(3), Fault::Connect)
        );
        assert_eq!(supervisor.phase(), Phase::Disconnected);
        assert_eq!(supervisor.stage, Stage::Disconnected);
        assert_eq!(supervisor.advance(Event::Wake, 0), quiet(Action::Connect));
        assert_eq!(supervisor.phase(), Phase::Connecting);
    }
}

#[test]
fn publish_failure_drops_the_frame_and_keeps_the_connection() {
    let mut supervisor = publishing(5);
    assert_eq!(
        supervisor.advance(Event::Published(Err(PublishFailure::Transport)), 5),
        faulty(Action::ReadFrame, Fault::Publish(PublishFailure::Transport))
    );
    assert_eq!(supervisor.phase(), Phase::Connected);
    assert_eq!(supervisor.counter, RateCounter::new());
    assert_eq!(
        supervisor.advance(Event::Frame(FRAME.to_vec()), 5),
        quiet(Action::Parse("3bT21.5[AB]".to_string()))
    );
    assert_eq!(
        supervisor.advance(Event::Parsed(Ok(packet())), 5),
        quiet(Action::Publish(LINE.to_string()))
    );
    assert_eq!(
        supervisor.advance(Event::Published(Err(PublishFailure::Response)), 5),
        faulty(Action::ReadFrame, Fault::Publish(PublishFailure::Response))
    );
    assert_eq!(supervisor.counter, RateCounter::new());
}

#[test]
fn empty_path_is_never_published() {
    let mut supervisor = connected();
    supervisor.advance(Event::Frame(FRAME.to_vec()), 5);
    let no_path = Packet { path: vec![], data: vec![], comment: None };
    assert_eq!(
        supervisor.advance(Event::Parsed(Ok(no_path)), 5),
        faulty(Action::ReadFrame, Fault::Encode(EncodeError::MissingPath))
    );
    assert_eq!(supervisor.phase(), Phase::Connected);
    assert_eq!(supervisor.stage, Stage::Reading);
    assert_eq!(supervisor.counter, RateCounter::new());
}

#[test]
fn bad_timestamp_drops_the_message() {
    let mut supervisor = connected();
    let frame = b"{\"nn\":\"GW1\",\"p\":\"3bT21.5[AB]\",\"r\":-87,\"t\":\"noon\",\"a\":2}\n";
    assert_eq!(
        supervisor.advance(Event::Frame(frame.to_vec()), 5),
        quiet(Action::Parse("3bT21.5[AB]".to_string()))
    );
    assert_eq!(
        supervisor.advance(Event::Parsed(Ok(packet())), 5),
        faulty(Action::ReadFrame, Fault::Encode(EncodeError::BadTimestamp))
    );
    assert_eq!(supervisor.phase(), Phase::Connected);
}

#[test]
fn sentence_that_does_not_parse_drops_the_message() {
    let mut supervisor = connected();
    supervisor.advance(Event::Frame(FRAME.to_vec()), 5);
    assert_eq!(
        supervisor.advance(Event::Parsed(Err(ParseFailure::Malformed)), 5),
        faulty(Action::ReadFrame, Fault::Parse(ParseFailure::Malformed))
    );
    supervisor.advance(Event::Frame(FRAME.to_vec()), 5);
    assert_eq!(
        supervisor.advance(Event::Parsed(Err(ParseFailure::Incomplete)), 5),
        faulty(Action::ReadFrame, Fault::Parse(ParseFailure::Incomplete))
    );
    assert_eq!(supervisor.phase(), Phase::Connected);
}

#[test]
fn frame_that_does_not_decode_drops_the_message() {
    let mut supervisor = connected();
    assert_eq!(
        supervisor.advance(Event::Frame(b"{\"nn\":\"GW1\"}\n".to_vec()), 5),
        faulty(Action::ReadFrame, Fault::Decode(DecodeError::Missing(EnvelopeField::Sentence)))
    );
    assert_eq!(
        supervisor.advance(Event::Frame(b"garbage\n".to_vec()), 5),
        faulty(Action::ReadFrame, Fault::Decode(DecodeError::Malformed))
    );
    assert_eq!(supervisor.phase(), Phase::Connected);
    assert_eq!(
        supervisor.advance(Event::Frame(FRAME.to_vec()), 5),
        quiet(Action::Parse("3bT21.5[AB]".to_string()))
    );
}

#[test]
fn invalid_text_gives_the_connection_up_where_the_schema_says_so() {
    let mut supervisor = connected();
    assert_eq!(
        supervisor.advance(Event::Frame(vec![0xff, 0x0a]), 5),
        faulty(Action::Wait(10), Fault::Decode(DecodeError::InvalidText))
    );
    assert_eq!(supervisor.phase(), Phase::Disconnected);

    let lenient = Schema {
        carries_age: true,
        includes_sentence: true,
        framing: Framing::Newline,
        invalid_text: TextFault::Message,
    };
    let mut supervisor = Supervisor::new(lenient, 10);
    supervisor.advance(Event::Wake, 0);
    supervisor.advance(Event::Connected, 0);
    assert_eq!(
        supervisor.advance(Event::Frame(vec![0xff, 0x0a]), 5),
        faulty(Action::ReadFrame, Fault::Decode(DecodeError::InvalidText))
    );
    assert_eq!(supervisor.phase(), Phase::Connected);
}

#[test]
fn rate_is_published_when_the_minute_has_passed() {
    let mut supervisor = connected();
    let mut actions = Vec::new();
    for minute in [7, 7, 7, 8, 8] {
        supervisor.advance(Event::Frame(FRAME.to_vec()), minute);
        supervisor.advance(Event::Parsed(Ok(packet())), minute);
        let step = supervisor.advance(Event::Published(Ok(())), minute);
        if step.action != Action::ReadFrame {
            assert_eq!(supervisor.stage, Stage::Reporting);
            actions.push(step.action);
            let after = supervisor.advance(Event::Published(Err(PublishFailure::Transport)), 30);
            assert_eq!(after, quiet(Action::ReadFrame));
        }
    }
    assert_eq!(actions, vec![Action::Publish("packets_per_minute rate=3i".to_string())]);
    assert_eq!(supervisor.counter, RateCounter { count: 2, minute: Some(8) });
}

#[test]
fn event_that_was_not_awaited_gives_the_connection_up() {
    let mut supervisor = connected();
    assert_eq!(
        supervisor.advance(Event::Published(Ok(())), 0),
        faulty(Action::Wait(10), Fault::Unexpected)
    );
    assert_eq!(supervisor.phase(), Phase::Disconnected);
    let mut supervisor = Supervisor::new(Schema::default(), 10);
    assert_eq!(
        supervisor.advance(Event::Frame(FRAME.to_vec()), 0),
        faulty(Action::Wait(10), Fault::Unexpected)
    );
    assert_eq!(supervisor.advance(Event::Wake, 0), quiet(Action::Connect));
}

#[test]
fn clock_is_read_when_a_message_is_counted() {
    let mut supervisor = Supervisor::new(Schema::default(), 10);
    assert_eq!(supervisor.step(Event::Wake), quiet(Action::Connect));
    assert_eq!(supervisor.step(Event::Connected), quiet(Action::ReadFrame));
    supervisor.step(Event::Frame(FRAME.to_vec()));
    assert_eq!(
        supervisor.step(Event::Parsed(Ok(packet()))),
        quiet(Action::Publish(LINE.to_string()))
    );
    assert_eq!(supervisor.step(Event::Published(Ok(()))), quiet(Action::ReadFrame));
    assert_eq!(supervisor.counter.count, 1);
    let minute = supervisor.counter.minute.unwrap();
    assert!(0 <= minute && minute <= 59);
}

#[test]
fn record_is_published_when_sent_and_answered() {
    assert_eq!(publish_outcome(true, true), Ok(()));
    assert_eq!(publish_outcome(true, false), Err(PublishFailure::Response));
    assert_eq!(publish_outcome(false, false), Err(PublishFailure::Transport));
    assert_eq!(publish_outcome(false, true), Err(PublishFailure::Transport));
}

#[test]
fn full_count_takes_every_event_but_one_more_message() {
    let mut supervisor = publishing(5);
    assert!(supervisor.accepts(&Event::Published(Ok(()))));
    supervisor.counter = RateCounter { count: u32::MAX, minute: Some(5) };
    assert!(!supervisor.accepts(&Event::Published(Ok(()))));
    assert!(supervisor.accepts(&Event::Published(Err(PublishFailure::Transport))));
    assert!(supervisor.accepts(&Event::ReadFailed));
    assert_eq!(
        supervisor.advance(Event::Published(Ok(())), 6),
        quiet(Action::Publish("packets_per_minute rate=4294967295i".to_string()))
    );
    assert_eq!(supervisor.counter, RateCounter { count: 1, minute: Some(6) });
    let mut reading = connected();
    reading.counter = RateCounter { count: u32::MAX, minute: Some(5) };
    assert!(reading.accepts(&Event::Published(Ok(()))));
    assert!(reading.accepts(&Event::Frame(FRAME.to_vec())));
}
