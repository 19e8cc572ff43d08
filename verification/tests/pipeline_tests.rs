use ukhasnet_influxdb::frame::FrameBuffer;
use ukhasnet_influxdb::packet::{DataField, Location, Packet, ParseFailure, WindSpeed};
use ukhasnet_influxdb::schema::Schema;
use ukhasnet_influxdb::supervisor::{Action, Event, Fault, Phase, Step, Supervisor};

fn reading(value: f32) -> String {
    format!("{:?}", value)
}

fn readings(values: Vec<f32>) -> Vec<String> {
    values.into_iter().map(reading).collect()
}

fn convert_field(field: ukhasnet_parser::DataField) -> DataField {
    match field {
        ukhasnet_parser::DataField::Temperature(v) => DataField::Temperature(readings(v)),
        ukhasnet_parser::DataField::Voltage(v) => DataField::Voltage(readings(v)),
        ukhasnet_parser::DataField::Current(v) => DataField::Current(readings(v)),
        ukhasnet_parser::DataField::Humidity(v) => DataField::Humidity(readings(v)),
        ukhasnet_parser::DataField::Pressure(v) => DataField::Pressure(readings(v)),
        ukhasnet_parser::DataField::Sun(v) => DataField::Sun(readings(v)),
        ukhasnet_parser::DataField::Rssi(v) => DataField::Rssi(readings(v)),
        ukhasnet_parser::DataField::Count(v) => DataField::Count(readings(v)),
        ukhasnet_parser::DataField::Custom(v) => DataField::Custom(readings(v)),
        ukhasnet_parser::DataField::Location(l) => DataField::Location(Location {
            latlng: l.latlng.map(|(lat, lng)| (reading(lat), reading(lng))),
            alt: l.alt.map(reading),
        }),
        ukhasnet_parser::DataField::WindSpeed(w) => DataField::WindSpeed(WindSpeed {
            speed: w.speed.map(reading),
            bearing: w.bearing.map(reading),
        }),
        ukhasnet_parser::DataField::Zombie(z) => DataField::Zombie(z),
    }
}

fn parse_sentence(sentence: &String) -> Result<Packet, ParseFailure> {
    match ukhasnet_parser::parse(sentence) {
        Ok(p) => Ok(Packet {
            path: p.path,
            data: p.data.into_iter().map(convert_field).collect(),
            comment: p.comment,
        }),
        Err(e) => Err(ParseFailure::at(e.position, sentence.len())),
    }
}

fn feed(lines: &[u8]) -> Vec<Step> {
    let mut supervisor = Supervisor::new(Schema::default(), 10);
    let mut buffer = FrameBuffer::new();
    buffer.extend(lines);
    let mut steps = Vec::new();
    let mut event = Event::Wake;
    loop {
        let step = supervisor.advance(event, 30);
        steps.push(step.clone());
        event = match step.action {
            Action::Connect => Event::Connected,
            Action::Wait(_) => break,
            Action::ReadFrame => match buffer.next_frame(b'\n') {
                Some(frame) => Event::Frame(frame),
                None => Event::ReadFailed,
            },
            Action::Parse(sentence) => Event::Parsed(parse_sentence(&sentence)),
            Action::Publish(_) => Event::Published(Ok(())),
        };
    }
    assert_eq!(supervisor.phase(), Phase::Disconnected);
    steps
}

fn quiet(action: Action) -> Step {
    Step { action, fault: None }
}

#[test]
fn feed_of_two_sentences_is_published_line_by_line() {
    let steps = feed(
        b"{\"nn\":\"GW1\",\"p\":\"2bT12,15H38:test[AG]\",\"r\":-87,\"t\":\"2021-05-01T12:00:00.500Z\",\"a\":2}\n\
          {\"nn\":\"GW2\",\"p\":\"3cL51.5,-0.12,35Z1V3.3V4.25[AB,CD,EF]\",\"r\":-60,\"t\":\"2021-05-01T12:00:01.000Z\",\"a\":0}\n",
    );
    assert_eq!(
        steps,
        vec![
            quiet(Action::Connect),
            quiet(Action::ReadFrame),
            quiet(Action::Parse("2bT12,15H38:test[AG]".to_string())),
            quiet(Action::Publish(
                "packet,gateway=GW1,node=AG,pathend=AG gw_rssi=-87i,gw_age=2i,\
                 temperature_1_1=12.0,temperature_1_2=15.0,humidity_1_1=38.0,\
                 message=\"test\",sentence=\"2bT12,15H38:test[AG]\" 1619870400500000000"
                    .to_string()
            )),
            quiet(Action::ReadFrame),
            quiet(Action::Parse("3cL51.5,-0.12,35Z1V3.3V4.25[AB,CD,EF]".to_string())),
            quiet(Action::Publish(
                "packet,gateway=GW2,node=AB,pathend=EF gw_rssi=-60i,gw_age=0i,\
                 location_1_latitude=51.5,location_1_longitude=-0.12,location_1_altitude=35.0,\
                 zombie_1=1i,voltage_1_1=3.3,voltage_2_1=4.25,\
                 sentence=\"3cL51.5,-0.12,35Z1V3.3V4.25[AB,CD,EF]\" 1619870401000000000"
                    .to_string()
            )),
            quiet(Action::ReadFrame),
            Step { action: Action::Wait(10), fault: Some(Fault::Read) },
        ]
    );
}

#[test]
fn sentence_that_the_parser_refuses_is_dropped() {
    let steps = feed(
        b"{\"nn\":\"GW1\",\"p\":\"no sentence\",\"r\":-87,\"t\":\"2021-05-01T12:00:00.500Z\",\"a\":2}\n\
          {\"nn\":\"GW1\",\"p\":\"2bT12\",\"r\":-87,\"t\":\"2021-05-01T12:00:00.500Z\",\"a\":2}\n",
    );
    assert_eq!(
        steps,
        vec![
            quiet(Action::Connect),
            quiet(Action::ReadFrame),
            quiet(Action::Parse("no sentence".to_string())),
            Step { action: Action::ReadFrame, fault: Some(Fault::Parse(ParseFailure::Malformed)) },
            quiet(Action::Parse("2bT12".to_string())),
            Step { action: Action::ReadFrame, fault: Some(Fault::Parse(ParseFailure::Incomplete)) },
            Step { action: Action::Wait(10), fault: Some(Fault::Read) },
        ]
    );
}
