use medaqlib::protocol::{channel_name_key, decimal_string, Command, Reply, NAME_QUERY_LIMIT};
use medaqlib::session::{Connection, DiscoveryEnd, Sensor, SensorBuilder, Stage};
use medaqlib::{ConfigIssue, ErrCode, Interface, ProtocolIssue, ScaledBits, SensorError};

const OK: ErrCode = ErrCode { code: 0 };
const FAIL: ErrCode = ErrCode { code: -2 };

/// A stand-in for the native engine: answers every call and records it.
struct MockEngine {
    names: Vec<String>,
    /// Fail the call whose log line starts with this text.
    fail_on: Option<&'static str>,
    /// Answer every name query with a non-empty name.
    endless: bool,
    /// Answer name queries with text that is not UTF-8.
    bad_text: bool,
    log: Vec<String>,
}

impl MockEngine {
    fn new(names: &[&str]) -> Self {
        MockEngine {
            names: names.iter().map(|s| s.to_string()).collect(),
            fail_on: None,
            endless: false,
            bad_text: false,
            log: vec![],
        }
    }

    fn count(&self, call: &str) -> usize {
        self.log.iter().filter(|l| l.as_str() == call).count()
    }

    fn perform(&mut self, command: Command) -> Reply {
        let line = match &command {
            Command::SetParameterString { name, value } => format!("set {name}={value}"),
            Command::SetParameterInt { name, value } => format!("set {name}={value}"),
            Command::OpenSensor => "open".to_string(),
            Command::ExecSCmd { command } => format!("exec {command}"),
            Command::GetParameterString { name, max_len } => format!("get {name} {max_len}"),
            Command::CloseSensor => "close".to_string(),
            Command::ReleaseSensorInstance => "release".to_string(),
        };
        self.log.push(line.clone());
        if let Some(prefix) = self.fail_on {
            if line.starts_with(prefix) {
                return Reply::Status(FAIL);
            }
        }
        match command {
            Command::GetParameterString { name, .. } => {
                if self.bad_text {
                    return Reply::InvalidText;
                }
                let index: usize = name.trim_start_matches("IA_Scaled_Name").parse().unwrap();
                if self.endless {
                    Reply::Text(format!("X{index}"))
                } else if index <= self.names.len() {
                    Reply::Text(self.names[index - 1].clone())
                } else {
                    Reply::Text(String::new())
                }
            }
            _ => Reply::Status(OK),
        }
    }

    fn run(&mut self, mut connection: Connection) -> Result<Sensor, SensorError> {
        while let Some(command) = connection.pending() {
            let reply = self.perform(command);
            connection.advance(reply);
        }
        connection.finish()
    }

    fn teardown(&mut self, sensor: &mut Sensor) {
        for command in sensor.teardown() {
            self.perform(command);
        }
    }
}

fn builder() -> SensorBuilder {
    SensorBuilder::new(7).with_interface(Interface::TcpIp).with_ip_address("10.10.10.10")
}

#[test]
fn discovery_stops_at_empty_name() {
    let mut engine = MockEngine::new(&["Ch1", "Ch2", ""]);
    let sensor = engine.run(builder().connect()).unwrap();
    assert_eq!(sensor.parameters(), &["Ch1".to_string(), "Ch2".to_string()]);
    assert_eq!(sensor.discovery_end(), DiscoveryEnd::EmptyName);
    assert_eq!(sensor.sensor_handle(), 7);
    assert_eq!(
        engine.log,
        vec![
            "set IP_Interface=TCP/IP",
            "set IP_RemoteAddr=10.10.10.10",
            "open",
            "exec Get_TransmittedDataInfo",
            "get IA_Scaled_Name1 68",
            "get IA_Scaled_Name2 68",
            "get IA_Scaled_Name3 68",
        ]
    );
}

#[test]
fn logging_parameter_is_sent_when_enabled() {
    let mut engine = MockEngine::new(&["A"]);
    let sensor = engine.run(builder().enable_logging().connect()).unwrap();
    assert_eq!(sensor.parameters(), &["A".to_string()]);
    assert_eq!(engine.log[2], "set IP_EnableLogging=1");
    assert_eq!(engine.log[3], "open");
}

#[test]
fn failed_name_query_ends_the_catalog() {
    let mut engine = MockEngine::new(&["A", "B", "C"]);
    engine.fail_on = Some("get IA_Scaled_Name3");
    let sensor = engine.run(builder().connect()).unwrap();
    assert_eq!(sensor.parameters(), &["A".to_string(), "B".to_string()]);
    assert_eq!(sensor.discovery_end(), DiscoveryEnd::QueryFailed(FAIL));
}

#[test]
fn discovery_is_bounded() {
    let mut engine = MockEngine::new(&[]);
    engine.endless = true;
    let sensor = engine.run(builder().connect()).unwrap();
    assert_eq!(sensor.parameters().len(), NAME_QUERY_LIMIT as usize);
    assert_eq!(sensor.parameters()[255], "X256");
    assert_eq!(sensor.discovery_end(), DiscoveryEnd::Limit);
}

#[test]
fn missing_interface_is_a_configuration_error() {
    let mut engine = MockEngine::new(&[]);
    let connection = SensorBuilder::new(1).with_ip_address("10.0.0.1").connect();
    assert_eq!(
        connection.stage(),
        Stage::Releasing(SensorError::Configuration(ConfigIssue::MissingInterface))
    );
    let r = engine.run(connection);
    assert_eq!(r.unwrap_err(), SensorError::Configuration(ConfigIssue::MissingInterface));
    assert_eq!(engine.log, vec!["release"]);
}

#[test]
fn missing_address_is_a_configuration_error() {
    let mut engine = MockEngine::new(&[]);
    let r = engine.run(SensorBuilder::new(1).with_interface(Interface::RS232).connect());
    assert_eq!(r.unwrap_err(), SensorError::Configuration(ConfigIssue::MissingAddress));
    assert_eq!(engine.log, vec!["release"]);
}

#[test]
fn malformed_address_is_a_configuration_error() {
    for address in ["", "10.10.10", "10.10.10.10.10", "256.1.1.1", "01.2.3.4", "1..2.3", "a.b.c.d", "1.2.3.4 ", "1234.1.1.1"] {
        let mut engine = MockEngine::new(&[]);
        let b = SensorBuilder::new(1).with_interface(Interface::TcpIp).with_ip_address(address);
        let r = engine.run(b.connect());
        assert_eq!(
            r.unwrap_err(),
            SensorError::Configuration(ConfigIssue::InvalidAddress),
            "{address}"
        );
        assert_eq!(engine.log, vec!["release"]);
    }
}

#[test]
fn valid_addresses_are_accepted() {
    for address in ["0.0.0.0", "255.255.255.255", "169.254.168.150", "10.0.100.9"] {
        assert!(medaqlib::address::is_ipv4_address(address), "{address}");
    }
    assert!(!medaqlib::address::is_ipv4_address("1.2.3.-4"));
}

#[test]
fn open_failure_releases_without_closing() {
    let mut engine = MockEngine::new(&["A"]);
    engine.fail_on = Some("open");
    let r = engine.run(builder().connect());
    assert_eq!(r.unwrap_err(), SensorError::Engine(FAIL));
    assert_eq!(engine.count("close"), 0);
    assert_eq!(engine.count("release"), 1);
    assert_eq!(engine.log.last().unwrap(), "release");
}

#[test]
fn discovery_command_failure_closes_then_releases() {
    let mut engine = MockEngine::new(&["A"]);
    engine.fail_on = Some("exec");
    let r = engine.run(builder().connect());
    assert_eq!(r.unwrap_err(), SensorError::Engine(FAIL));
    let n = engine.log.len();
    assert_eq!(engine.log[n - 2..], ["close".to_string(), "release".to_string()]);
}

#[test]
fn invalid_name_text_is_a_protocol_error() {
    let mut engine = MockEngine::new(&["A"]);
    engine.bad_text = true;
    let r = engine.run(builder().connect());
    assert_eq!(r.unwrap_err(), SensorError::Protocol(ProtocolIssue::InvalidText));
    assert_eq!(engine.count("close"), 1);
    assert_eq!(engine.count("release"), 1);
}

#[test]
fn teardown_twice_closes_and_releases_once() {
    let mut engine = MockEngine::new(&["A"]);
    let mut sensor = engine.run(builder().connect()).unwrap();
    assert!(!sensor.is_released());
    engine.teardown(&mut sensor);
    engine.teardown(&mut sensor);
    assert!(sensor.is_released());
    assert_eq!(engine.count("close"), 1);
    assert_eq!(engine.count("release"), 1);
    let n = engine.log.len();
    assert_eq!(engine.log[n - 2..], ["close".to_string(), "release".to_string()]);
}

#[test]
fn available_count_decisions() {
    let mut engine = MockEngine::new(&["A", "B"]);
    let sensor = engine.run(builder().connect()).unwrap();
    assert_eq!(sensor.data_available(OK, 0), Ok(None));
    assert_eq!(sensor.data_available(OK, 6), Ok(Some(6)));
    assert_eq!(sensor.data_available(FAIL, 6), Err(SensorError::Engine(FAIL)));
    assert_eq!(
        sensor.data_available(OK, -1),
        Err(SensorError::Protocol(ProtocolIssue::NegativeCount))
    );
}

#[test]
fn read_data_trims_to_transferred_rows() {
    let mut engine = MockEngine::new(&["A", "B"]);
    let sensor = engine.run(builder().connect()).unwrap();
    let raw = vec![1, 2, 3, 4, 0, 0];
    let scaled: Vec<ScaledBits> = [0.5, 1.5, 2.5, 3.5, 0.0, 0.0].iter().map(|v: &f64| ScaledBits(v.to_bits())).collect();
    let data = sensor.read_data(OK, raw.clone(), scaled.clone(), 4).unwrap();
    assert_eq!(data.channels, vec!["A".to_string(), "B".to_string()]);
    assert_eq!(data.raw_data, vec![1, 2, 3, 4]);
    assert_eq!(data.scaled_data, scaled[..4].to_vec());
    assert_eq!(
        sensor.read_data(OK, raw.clone(), scaled.clone(), 3).unwrap_err(),
        SensorError::Protocol(ProtocolIssue::PartialRow)
    );
    assert_eq!(
        sensor.read_data(OK, raw.clone(), scaled.clone(), 8).unwrap_err(),
        SensorError::Protocol(ProtocolIssue::TransferOverrun)
    );
    assert_eq!(
        sensor.read_data(OK, raw.clone(), scaled.clone(), -2).unwrap_err(),
        SensorError::Protocol(ProtocolIssue::TransferOverrun)
    );
    assert_eq!(sensor.read_data(FAIL, raw, scaled, 4).unwrap_err(), SensorError::Engine(FAIL));
}

#[test]
fn channel_name_keys_count_from_one_in_decimal() {
    assert_eq!(channel_name_key(1), "IA_Scaled_Name1");
    assert_eq!(channel_name_key(12), "IA_Scaled_Name12");
    assert_eq!(decimal_string(0), "0");
    assert_eq!(decimal_string(4096), "4096");
    assert_eq!(decimal_string(u32::MAX), u32::MAX.to_string());
}

#[test]
fn interface_names_match_the_engine() {
    let all = [
        (Interface::RS232, "RS232"),
        (Interface::If2004Usb, "IF2004_USB"),
        (Interface::If2008, "IF2008"),
        (Interface::If2008Eth, "IF2008_ETH"),
        (Interface::TcpIp, "TCP/IP"),
        (Interface::WinUSB, "WinUSB"),
    ];
    for (i, name) in all {
        assert_eq!(i.name(), name);
    }
}

#[test]
fn status_codes_translate_to_results() {
    assert_eq!(OK.to_result(), Ok(()));
    assert_eq!(FAIL.to_result(), Err(SensorError::Engine(FAIL)));
}
