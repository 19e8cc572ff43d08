use ukhasnet_influxdb::config::{
    parse_config, Config, ConfigError, ConfigKey, InfluxDBConfig, UkhasnetConfig,
};
use ukhasnet_influxdb::limits::{check_toml_limits, MAX_HEADER_DOTS};

fn text(s: &str) -> Option<String> {
    Some(s.to_string())
}

fn expected() -> Config {
    Config {
        ukhasnet: UkhasnetConfig { socket: "ukhas.net:3020".to_string() },
        influxdb: InfluxDBConfig {
            url: "http://localhost:8086/write?db=ukhasnet".to_string(),
            username: "collector".to_string(),
            password: "SECRET-REDACTED".to_string(),
        },
        logfile: "/var/log/ukhasnet.log".to_string(),
    }
}

#[test]
fn configuration_is_read_from_toml() {
    let file = "logfile = \"/var/log/ukhasnet.log\"\n\
                \n\
                [ukhasnet]\n\
                socket = \"ukhas.net:3020\"\n\
                \n\
                # where the records go\n\
                [influxdb]\n\
                url = \"http://localhost:8086/write?db=ukhasnet\"\n\
                username = \"collector\"\n\
                password = \"SECRET-REDACTED\"\n\
                extra = 5\n";
    assert_eq!(parse_config(file), Ok(expected()));
}

#[test]
fn text_that_is_not_toml_is_unparsable() {
    assert_eq!(parse_config("logfile = "), Err(ConfigError::Unparsable));
    assert_eq!(parse_config("[ukhasnet\nsocket = \"x\""), Err(ConfigError::Unparsable));
    assert_eq!(parse_config("{\"logfile\": \"x\"}"), Err(ConfigError::Unparsable));
}

#[test]
fn first_missing_setting_is_the_failure() {
    assert_eq!(parse_config(""), Err(ConfigError::Missing(ConfigKey::Socket)));
    assert_eq!(
        parse_config("logfile = \"l\"\n[influxdb]\nurl = \"u\"\n"),
        Err(ConfigError::Missing(ConfigKey::Socket))
    );
    assert_eq!(
        parse_config("[ukhasnet]\nsocket = \"s\"\n"),
        Err(ConfigError::Missing(ConfigKey::Url))
    );
    assert_eq!(
        parse_config("[ukhasnet]\nsocket = \"s\"\n[influxdb]\nurl = \"u\"\n"),
        Err(ConfigError::Missing(ConfigKey::Username))
    );
    assert_eq!(
        parse_config("[ukhasnet]\nsocket = \"s\"\n[influxdb]\nurl = \"u\"\nusername = \"n\"\n"),
        Err(ConfigError::Missing(ConfigKey::Password))
    );
    assert_eq!(
        parse_config(
            "[ukhasnet]\nsocket = \"s\"\n[influxdb]\nurl = \"u\"\nusername = \"n\"\npassword = \"p\"\n"
        ),
        Err(ConfigError::Missing(ConfigKey::Logfile))
    );
}

#[test]
fn setting_that_is_not_a_string_is_missing() {
    assert_eq!(
        parse_config(
            "logfile = \"l\"\n[ukhasnet]\nsocket = 3020\n[influxdb]\nurl = \"u\"\nusername = \"n\"\npassword = \"p\"\n"
        ),
        Err(ConfigError::Missing(ConfigKey::Socket))
    );
    assert_eq!(
        parse_config(
            "logfile = true\n[ukhasnet]\nsocket = \"s\"\n[influxdb]\nurl = \"u\"\nusername = \"n\"\npassword = \"p\"\n"
        ),
        Err(ConfigError::Missing(ConfigKey::Logfile))
    );
}

#[test]
fn configuration_is_assembled_from_its_settings() {
    assert_eq!(
        Config::assemble(
            text("ukhas.net:3020"),
            text("http://localhost:8086/write?db=ukhasnet"),
            text("collector"),
            text("SECRET-REDACTED"),
            text("/var/log/ukhasnet.log"),
        ),
        Ok(expected())
    );
    assert_eq!(
        Config::assemble(None, None, None, None, None),
        Err(ConfigError::Missing(ConfigKey::Socket))
    );
    assert_eq!(
        Config::assemble(text("s"), text("u"), None, None, text("l")),
        Err(ConfigError::Missing(ConfigKey::Username))
    );
    assert_eq!(
        Config::assemble(text("s"), text("u"), text("n"), text("p"), None),
        Err(ConfigError::Missing(ConfigKey::Logfile))
    );
}

const SETTINGS: &str = "logfile = \"/var/log/ukhasnet.log\"\n\
                        [ukhasnet]\n\
                        socket = \"ukhas.net:3020\"\n\
                        [influxdb]\n\
                        url = \"http://localhost:8086/write?db=ukhasnet\"\n\
                        username = \"collector\"\n\
                        password = \"SECRET-REDACTED\"\n";

fn with_first(lines: &str) -> String {
    format!("{}\n{}", lines, SETTINGS)
}

#[test]
fn arrays_too_deep_are_refused() {
    let nested = |depth: usize| {
        with_first(&format!("list = {}{}", "[".repeat(depth), "]".repeat(depth)))
    };
    assert_eq!(parse_config(&nested(3)), Ok(expected()));
    assert_eq!(parse_config(&nested(128)), Ok(expected()));
    assert_eq!(parse_config(&nested(129)), Err(ConfigError::TooDeep));
    let tables = |depth: usize| {
        with_first(&format!("t = {}{}", "{ a = ".repeat(depth), "1".to_string() + &" }".repeat(depth)))
    };
    assert_eq!(parse_config(&tables(128)), Ok(expected()));
    assert_eq!(parse_config(&tables(129)), Err(ConfigError::TooDeep));
}

#[test]
fn header_of_too_many_parts_is_refused() {
    let header = |parts: usize| format!("{}\n[{}]\nx = 1\n", SETTINGS, vec!["a"; parts].join("."));
    assert_eq!(parse_config(&header(1)), Ok(expected()));
    assert_eq!(parse_config(&header(128)), Ok(expected()));
    assert_eq!(parse_config(&header(129)), Err(ConfigError::TooDeep));
    let tables = |parts: usize| format!("{}\n[[{}]]\nx = 1\n", SETTINGS, vec!["a"; parts].join(" . "));
    assert_eq!(parse_config(&tables(128)), Ok(expected()));
    assert_eq!(parse_config(&tables(129)), Err(ConfigError::TooDeep));
    assert_eq!(MAX_HEADER_DOTS, 127);
}

#[test]
fn brackets_and_dots_that_do_not_nest_are_read() {
    let comment = with_first(&format!("# {} {}", "[{".repeat(500), ".".repeat(500)));
    assert_eq!(parse_config(&comment), Ok(expected()));
    let flat = with_first(&format!("list = [{}[]]", "[], ".repeat(200)));
    assert_eq!(parse_config(&flat), Ok(expected()));
    let floats = with_first(&format!("list = [{}1.5]", "0.5, ".repeat(200)));
    assert_eq!(parse_config(&floats), Ok(expected()));
    let basic = with_first(&format!("text = \"{} \\\" {}\"", "[".repeat(300), "{".repeat(300)));
    assert_eq!(parse_config(&basic), Ok(expected()));
    let literal = with_first(&format!("text = '{}\"{}'", "[".repeat(300), ".".repeat(300)));
    assert_eq!(parse_config(&literal), Ok(expected()));
    let long_basic = with_first(&format!(
        "text = \"\"\"\n{} \" \"\" # ' {}\n\"\"\"",
        "[".repeat(300),
        "{".repeat(300)
    ));
    assert_eq!(parse_config(&long_basic), Ok(expected()));
    let long_literal = with_first(&format!(
        "text = \'\'\'\n{} ' '' # \" \\ {}\n\'\'\'",
        "[".repeat(300),
        "{".repeat(300)
    ));
    assert_eq!(parse_config(&long_literal), Ok(expected()));
    let quoted_key =
        format!("{}[\"{}\".'{}']\nx = 1", SETTINGS, ".".repeat(300), ".".repeat(300));
    assert_eq!(parse_config(&quoted_key), Ok(expected()));
    let spread = with_first(&format!("list = [\n{}  [1.5], # ]]]]\n]", "  [0.5],\n".repeat(200)));
    assert_eq!(parse_config(&spread), Ok(expected()));
    let many = format!("{}{}", SETTINGS, "[[servers]]\nname = \"a.b.c\"\n".repeat(300));
    assert_eq!(parse_config(&many), Ok(expected()));
}

#[test]
fn depth_is_counted_outside_strings_and_comments() {
    assert!(check_toml_limits(b""));
    assert!(check_toml_limits(&b"[a]\n".repeat(1000)));
    assert!(check_toml_limits(format!("a = {}", "[".repeat(128)).as_bytes()));
    assert!(!check_toml_limits(format!("a = {}", "[".repeat(129)).as_bytes()));
    assert!(check_toml_limits(format!("a = 1 # {}", "[".repeat(129)).as_bytes()));
    assert!(!check_toml_limits(format!("a = 1 # x\nb = {}", "[".repeat(129)).as_bytes()));
    assert!(check_toml_limits(format!("a = \"{}\"", "[".repeat(129)).as_bytes()));
    assert!(!check_toml_limits(format!("a = \"\" {}", "[".repeat(129)).as_bytes()));
    assert!(!check_toml_limits(format!("a = \"\\\\\" {}", "[".repeat(129)).as_bytes()));
    assert!(check_toml_limits(format!("a = \"\\\"{}", "[".repeat(129)).as_bytes()));
    assert!(check_toml_limits(format!("a = 'x\\' {}", "[".repeat(128)).as_bytes()));
    assert!(!check_toml_limits(format!("a = 'x\\' {}", "[".repeat(129)).as_bytes()));
    assert!(!check_toml_limits(format!("['a\n{}]", ".b".repeat(128)).as_bytes()));
    assert!(check_toml_limits(format!("a = [{}]", ".".repeat(500)).as_bytes()));
    assert!(!check_toml_limits(format!("[{}]", ".".repeat(128)).as_bytes()));
    assert!(check_toml_limits(format!("[{}]", ".".repeat(127)).as_bytes()));
}
