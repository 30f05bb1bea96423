use net_serial_console::config::{
    opt_baudrate, opt_databits, opt_flowcontrol, opt_parity, opt_stopbits, serial_config,
    BaudRate, CharSize, ConfigError, FlowControl, Parity, StopBits,
};
use net_serial_console::options::{Level, OptsCommon, OptsConsoleServer, OptsConsoleWeb};

#[test]
fn baud_rates_in_the_supported_set_are_accepted() {
    assert_eq!(opt_baudrate(9600), Ok(BaudRate::Baud9600));
    assert_eq!(opt_baudrate(115200), Ok(BaudRate::Baud115200));
    assert_eq!(opt_baudrate(110), Ok(BaudRate::Baud110));
    assert_eq!(opt_baudrate(12345), Err(ConfigError::InvalidBaudRate));
    assert_eq!(opt_baudrate(0), Err(ConfigError::InvalidBaudRate));
}

#[test]
fn flow_control_spellings() {
    for w in ["N", "n", "NONE", "none"] {
        assert_eq!(opt_flowcontrol(w), Ok(FlowControl::FlowNone));
    }
    for w in ["H", "h", "HARD", "hard", "hw", "hardware"] {
        assert_eq!(opt_flowcontrol(w), Ok(FlowControl::FlowHardware));
    }
    for w in ["S", "s", "SOFT", "soft", "sw", "software"] {
        assert_eq!(opt_flowcontrol(w), Ok(FlowControl::FlowSoftware));
    }
    assert_eq!(opt_flowcontrol("xon"), Err(ConfigError::InvalidFlowControl));
    assert_eq!(opt_flowcontrol(""), Err(ConfigError::InvalidFlowControl));
}

#[test]
fn data_bits_between_five_and_eight() {
    assert_eq!(opt_databits(5), Ok(CharSize::Bits5));
    assert_eq!(opt_databits(6), Ok(CharSize::Bits6));
    assert_eq!(opt_databits(7), Ok(CharSize::Bits7));
    assert_eq!(opt_databits(8), Ok(CharSize::Bits8));
    assert_eq!(opt_databits(9), Err(ConfigError::InvalidDataBits));
    assert_eq!(opt_databits(0), Err(ConfigError::InvalidDataBits));
}

#[test]
fn parity_spellings() {
    assert_eq!(opt_parity("N"), Ok(Parity::ParityNone));
    assert_eq!(opt_parity("n"), Ok(Parity::ParityNone));
    assert_eq!(opt_parity("E"), Ok(Parity::ParityEven));
    assert_eq!(opt_parity("e"), Ok(Parity::ParityEven));
    assert_eq!(opt_parity("O"), Ok(Parity::ParityOdd));
    assert_eq!(opt_parity("o"), Ok(Parity::ParityOdd));
    assert_eq!(opt_parity("mark"), Err(ConfigError::InvalidParity));
}

#[test]
fn stop_bits_one_or_two() {
    assert_eq!(opt_stopbits(1), Ok(StopBits::Stop1));
    assert_eq!(opt_stopbits(2), Ok(StopBits::Stop2));
    assert_eq!(opt_stopbits(3), Err(ConfigError::InvalidStopBits));
}

#[test]
fn whole_configuration_validates_or_names_the_first_fault() {
    let ok = serial_config("none", 115200, 8, "N", 1).expect("valid configuration");
    assert_eq!(ok.flow, FlowControl::FlowNone);
    assert_eq!(ok.baud, BaudRate::Baud115200);
    assert_eq!(ok.data_bits, CharSize::Bits8);
    assert_eq!(ok.parity, Parity::ParityNone);
    assert_eq!(ok.stop_bits, StopBits::Stop1);
    // Parameters are checked in programming order; the first bad one wins.
    assert_eq!(
        serial_config("bogus", 99, 9, "x", 7),
        Err(ConfigError::InvalidFlowControl)
    );
    assert_eq!(
        serial_config("hw", 99, 9, "x", 7),
        Err(ConfigError::InvalidBaudRate)
    );
    assert_eq!(
        serial_config("hw", 9600, 9, "x", 7),
        Err(ConfigError::InvalidDataBits)
    );
    assert_eq!(
        serial_config("hw", 9600, 7, "x", 7),
        Err(ConfigError::InvalidParity)
    );
    assert_eq!(
        serial_config("hw", 9600, 7, "E", 7),
        Err(ConfigError::InvalidStopBits)
    );
}

#[test]
fn error_messages_name_the_parameter() {
    assert_eq!(ConfigError::InvalidBaudRate.message(), "invalid baudrate");
    assert_eq!(ConfigError::InvalidFlowControl.message(), "invalid flowcontrol");
    assert_eq!(ConfigError::InvalidDataBits.message(), "invalid databits");
    assert_eq!(ConfigError::InvalidParity.message(), "invalid parity");
    assert_eq!(ConfigError::InvalidStopBits.message(), "invalid stopbits");
}

#[test]
fn loglevel_follows_the_most_detailed_switch() {
    let mk = |verbose, debug, trace| OptsCommon { verbose, debug, trace };
    assert_eq!(mk(false, false, true).get_loglevel(), Level::Trace);
    assert_eq!(mk(false, true, false).get_loglevel(), Level::Debug);
    assert_eq!(mk(true, true, true).get_loglevel(), Level::Trace);
    assert_eq!(mk(true, false, false).get_loglevel(), Level::Info);
    assert_eq!(mk(false, false, false).get_loglevel(), Level::Error);
}

#[test]
fn finalize_accepts_every_option_set() {
    let mut c = OptsCommon { verbose: true, debug: false, trace: false };
    assert!(c.finalize().is_ok());
    let mut s = OptsConsoleServer {
        c: c.clone(),
        listen: "127.0.0.1:24242".to_string(),
        ser_port: "/dev/ttyUSB0".to_string(),
        ser_flow: "none".to_string(),
        baud: 115200,
        ser_datab: 8,
        ser_parity: "N".to_string(),
        ser_stopb: 1,
        write: false,
    };
    assert!(s.finalize().is_ok());
    let mut w = OptsConsoleWeb {
        c,
        listen: "127.0.0.1:8080".to_string(),
        connect: "127.0.0.1:24242".to_string(),
    };
    assert!(w.finalize().is_ok());
}
