use ukhasnet_influxdb::config::{parse_config, ConfigError};
use ukhasnet_influxdb::decoder::{decode_frame, DecodeError};
use ukhasnet_influxdb::limits::{check_json_limits, check_toml_limits};
use ukhasnet_influxdb::schema::Schema;

struct Dice(u64);

impl Dice {
    fn roll(&mut self, sides: usize) -> usize {
        self.0 = self.0.wrapping_mul(6364136223846793005).wrapping_add(1442695040888963407);
        ((self.0 >> 33) as usize) % sides
    }

    fn text(&mut self, pieces: &[&str], most: usize) -> String {
        let mut text = String::new();
        for _ in 0..self.roll(most + 1) {
            text.push_str(pieces[self.roll(pieces.len())]);
        }
        text
    }
}

const TOML_PIECES: &[&str] = &[
    "a = ", "b = ", "\n", "\r\n", "# c [[ \" '\n", "#", "\"x\"", "\"\"", "\"\\\"\"", "\"\\\\\"",
    "\"\"\"m\"\"\"", "\"\"\"a\"b\"\"c\\\"\"\"\"", "\"\"\"", "'l'", "''", "'''m'''",
    "'''a'b''c'''", "'''", "[", "]", "{", "}", ",", "1", "1.5", "[t]\n", "[t.u]\n", "[[t]]\n",
    "\"\n\"", "'\n", "\\", " ", "k", ".", "=", "\"", "'", "\\u0041", "true", "\t",
];

const JSON_PIECES: &[&str] = &[
    "{", "}", "[", "]", "\"k\":", "\"s\"", "\"a\\\"b\"", "\"\\\\\"", "\"\\u0041\"", ",", ":", "1",
    "1e5", "-2.5E-3", "true", "null", " ", "\n", "\"[\"", "\"]\"", "\\", "\"", "\"\\\"", "e",
];

// Each text ends in brackets, tables or header parts far deeper than a reader
// gets through. Where the check lets the text pass, the reader is called on
// it and has to come back.
fn toml_tails() -> Vec<String> {
    vec![
        "[".repeat(100_000),
        "{a=".repeat(100_000),
        format!("[a{}]\n", ".a".repeat(100_000)),
        format!("[[a{}]]\n", " . a".repeat(100_000)),
        format!("x = {}", "[".repeat(100_000)),
        format!("\nx = [\n{}", "[\n".repeat(100_000)),
    ]
}

fn run_toml(seed: u64, rounds: usize) -> (usize, usize) {
    let mut dice = Dice(seed);
    let tails = toml_tails();
    let mut passed = 0;
    let mut refused = 0;
    for _ in 0..rounds {
        let mut text = dice.text(TOML_PIECES, 8);
        text.push_str(&tails[dice.roll(tails.len())]);
        if check_toml_limits(text.as_bytes()) {
            passed += 1;
            assert_ne!(parse_config(&text), Err(ConfigError::TooDeep));
        } else {
            refused += 1;
            assert_eq!(parse_config(&text), Err(ConfigError::TooDeep));
        }
    }
    (passed, refused)
}

#[test]
fn reader_of_toml_comes_back_from_what_the_check_lets_pass() {
    let (passed, refused) = run_toml(1, 1500);
    assert!(passed > 100);
    assert!(refused > 100);
}

#[test]
fn reader_of_toml_comes_back_from_what_the_check_lets_pass_again() {
    let (passed, refused) = run_toml(7_654_321, 1500);
    assert!(passed > 100);
    assert!(refused > 100);
}

fn run_json(seed: u64, rounds: usize) -> (usize, usize) {
    let mut dice = Dice(seed);
    let schema = Schema::default();
    let tails = ["[".repeat(60_000), "{\"k\":".repeat(12_000), "[{\"k\":".repeat(10_000)];
    let mut passed = 0;
    let mut refused = 0;
    for _ in 0..rounds {
        let mut text = dice.text(JSON_PIECES, 8);
        text.push_str(&tails[dice.roll(tails.len())]);
        if check_json_limits(text.as_bytes()) {
            passed += 1;
            assert_ne!(decode_frame(&schema, text.as_bytes()), Err(DecodeError::Excessive));
        } else {
            refused += 1;
            assert_eq!(decode_frame(&schema, text.as_bytes()), Err(DecodeError::Excessive));
        }
    }
    (passed, refused)
}

#[test]
fn reader_of_json_comes_back_from_what_the_check_lets_pass() {
    let (passed, refused) = run_json(3, 3000);
    assert!(passed > 100);
    assert!(refused > 100);
}

#[test]
fn reader_of_json_comes_back_from_what_the_check_lets_pass_again() {
    let (passed, refused) = run_json(987_654_321, 3000);
    assert!(passed > 100);
    assert!(refused > 100);
}

const JSON_BYTES: &[u8] = b"{}[]\":,\\/bfnrtu0123456789+-.eEalsxADF \n\t\x00\x7f\xc3\xa9\xed\xa0\x80\xff";

const TOML_BYTES: &[u8] = b"[]{}\"'\\#=.,_-+:TZ0123456789eEabtrufalsexU \n\r\t\x00\xc3\xa9\xef\xbb\xbf";

fn scramble(dice: &mut Dice, alphabet: &[u8], most: usize) -> Vec<u8> {
    let mut bytes = Vec::new();
    for _ in 0..dice.roll(most + 1) {
        bytes.push(alphabet[dice.roll(alphabet.len())]);
    }
    bytes
}

#[test]
fn decoder_comes_back_from_short_scrambles() {
    let mut dice = Dice(11);
    let schema = Schema::default();
    let mut outcomes = [0usize; 2];
    for _ in 0..60_000 {
        let mut frame = Vec::new();
        if dice.roll(2) == 0 {
            frame.extend(b"{\"nn\":");
        }
        frame.extend(scramble(&mut dice, JSON_BYTES, 24));
        outcomes[decode_frame(&schema, &frame).is_ok() as usize] += 1;
    }
    assert_eq!(outcomes[0] + outcomes[1], 60_000);
}

#[test]
fn configuration_comes_back_from_short_scrambles() {
    let mut dice = Dice(13);
    let mut outcomes = [0usize; 2];
    for _ in 0..60_000 {
        let mut bytes = Vec::new();
        if dice.roll(2) == 0 {
            bytes.extend(b"a = ");
        }
        bytes.extend(scramble(&mut dice, TOML_BYTES, 24));
        if let Ok(text) = String::from_utf8(bytes) {
            outcomes[parse_config(&text).is_ok() as usize] += 1;
        }
    }
    assert!(outcomes[0] > 1000);
}
