use kraken_collector::collectors::bjig::BjigFactory;
use kraken_collector::collectors::camera::CameraFactory;
use kraken_collector::collectors::email::EmailFactory;
use kraken_collector::collectors::grpc::{ForwardRequest, ForwardRequestError, KrakenBroker};
use kraken_collector::collectors::ibeacon::IbeaconFactory;
use kraken_collector::collectors::mqtt::MqttFactory;
use kraken_collector::collectors::serial::SerialFactory;
use kraken_collector::collectors::tcp::TcpFactory;
use kraken_collector::collectors::textfile::TextfileFactory;
use kraken_collector::collectors::webhook::WebhookFactory;
use kraken_collector::collectors::websocket::WebsocketFactory;
use kraken_collector::collectors::{Collector, CollectorFactory};
use kraken_collector::config::CollectorCfg;
use kraken_collector::service::{select_enabled, AdapterDescriptor, SupervisorError};

fn descriptor(name: &str, enabled: bool) -> AdapterDescriptor {
    AdapterDescriptor { name: name.to_string(), enabled }
}

#[test]
fn enabled_adapters_are_selected_in_order() {
    let ds = vec![
        descriptor("webhook", false),
        descriptor("mqtt", true),
        descriptor("websocket", false),
        descriptor("ibeacon", true),
    ];
    let selected = select_enabled(&ds).unwrap();
    assert_eq!(selected, vec![1, 3]);
}

#[test]
fn zero_enabled_adapters_fail_fast() {
    let ds = vec![descriptor("webhook", false), descriptor("mqtt", false)];
    let err = select_enabled(&ds).unwrap_err();
    assert_eq!(err, SupervisorError::NoCollectorsEnabled);
    assert_eq!(err.message(), "all collector service are not enabled.");
}

#[test]
fn empty_descriptor_set_fails_fast() {
    let ds: Vec<AdapterDescriptor> = Vec::new();
    assert!(select_enabled(&ds).is_err());
}

#[test]
fn default_configuration_disables_every_adapter() {
    let cfg = CollectorCfg::default();
    assert!(!cfg.webhook.enable);
    assert!(!cfg.mqtt.enable);
    assert!(!cfg.websocket.enable);
    assert!(!cfg.ibeacon.enable);
    assert!(!cfg.serial.enable);
    assert!(!cfg.text_file.enable);
    assert!(!cfg.tcp.enable);
    assert!(!cfg.camera.enable);
    assert!(!cfg.email.enable);
    assert!(!cfg.bjig.enable);
}

#[test]
fn default_configuration_fills_conventional_values() {
    let cfg = CollectorCfg::default();
    assert_eq!(cfg.webhook.path, "/webhook");
    assert_eq!(cfg.webhook.port, 2792);
    assert_eq!(cfg.mqtt.topic, "kraken");
    assert_eq!(cfg.mqtt.config_path, "config/mqttd.conf");
    assert_eq!(cfg.websocket.host, "127.0.0.1:2794");
    assert_eq!(cfg.grpc.host, "http://[::1]:50051");
    assert_eq!(cfg.ibeacon.filter_duration, 1);
    assert_eq!(cfg.ibeacon.allowed_uuid_filter_path, "config/allowed_uuids.yml");
    assert_eq!(cfg.serial.device_name, "unknown");
    assert_eq!(cfg.serial.port, "/dev/ttyACM0");
    assert_eq!(cfg.serial.baudrate, 9600);
    assert_eq!(cfg.serial.timeout, 10);
    assert_eq!(cfg.text_file.target_file_path, "data/data.txt");
    assert_eq!(cfg.text_file.monitor_dir_path, "data/");
    assert_eq!(cfg.text_file.interval_sec, 10);
    assert_eq!(cfg.text_file.monitoring_mode, "time_interval");
    assert!(cfg.text_file.allow_create);
    assert!(cfg.text_file.allow_modify);
    assert!(!cfg.text_file.remove_created);
}

#[test]
fn adapters_carry_their_fixed_names() {
    let cfg = CollectorCfg::default();
    assert_eq!(WebhookFactory::new(cfg.clone()).create().name(), "webhook");
    assert_eq!(MqttFactory::new(cfg.clone()).create().name(), "mqtt");
    assert_eq!(WebsocketFactory::new(cfg.clone()).create().name(), "websocket");
    assert_eq!(IbeaconFactory::new(cfg.clone()).create().name(), "ibeacon");
    assert_eq!(SerialFactory::new(cfg.clone()).create().name(), "serial");
    assert_eq!(TextfileFactory::new(cfg.clone()).create().name(), "textfile");
    assert_eq!(TcpFactory::new(cfg.clone()).create().name(), "tcp");
    assert_eq!(CameraFactory::new(cfg.clone()).create().name(), "camera");
    assert_eq!(EmailFactory::new(cfg.clone()).create().name(), "email");
    assert_eq!(BjigFactory::new(cfg).create().name(), "bjig");
}

#[test]
fn enabled_flag_follows_the_configuration() {
    let mut cfg = CollectorCfg::default();
    cfg.mqtt.enable = true;
    assert!(MqttFactory::new(cfg.clone()).create().is_enable());
    assert!(!WebhookFactory::new(cfg).create().is_enable());
}

#[test]
fn forward_request_demands_a_collector_name() {
    let err = ForwardRequest::new(
        String::new(),
        "text/plain".to_string(),
        "{}".to_string(),
        vec![1],
    );
    assert_eq!(err.unwrap_err(), ForwardRequestError::EmptyCollectorName);

    let ok = ForwardRequest::new(
        "tcp".to_string(),
        "text/plain".to_string(),
        "{}".to_string(),
        vec![1],
    )
    .unwrap();
    assert_eq!(ok.collector_name, "tcp");
    assert_eq!(ok.payload, vec![1]);
}

#[test]
fn loopback_broker_echoes_the_payload() {
    let broker = KrakenBroker::default();
    let request = ForwardRequest::new(
        "tcp".to_string(),
        "application/octet-stream".to_string(),
        "{}".to_string(),
        vec![9, 8, 7],
    )
    .unwrap();
    let reply = broker.process_kraken_request(request);
    assert_eq!(reply.collector_name, "example_collector");
    assert_eq!(reply.content_type, "example_type");
    assert_eq!(reply.metadata, "example_metadata");
    assert_eq!(reply.payload, vec![9, 8, 7]);
}
