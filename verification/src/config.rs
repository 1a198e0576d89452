//! Configuration of the collector set. One sub-structure per adapter plus
//! the broker endpoint; the values here are the built-in fallbacks, and the
//! surrounding process may overwrite any field from its environment before
//! handing the configuration to the supervisor.

use vstd::prelude::*;
use vstd::string::StringExecFns;

verus! {

/// Webhook (HTTP POST) adapter settings.
#[derive(Debug)]
pub struct WebhookCfg {
    pub enable: bool,
    pub path: String,
    pub port: u16,
}

/// Embedded MQTT broker adapter settings.
#[derive(Debug)]
pub struct MqttCfg {
    pub enable: bool,
    pub topic: String,
    pub config_path: String,
}

/// Websocket adapter settings.
#[derive(Debug)]
pub struct WebsocketCfg {
    pub enable: bool,
    pub host: String,
}

/// BLE beacon adapter settings.
#[derive(Debug)]
pub struct IbeaconCfg {
    pub enable: bool,
    pub filter_duration: u64,
    pub allowed_uuid_filter_path: String,
}

/// Serial-port adapter settings.
#[derive(Debug)]
pub struct SerialCfg {
    pub enable: bool,
    pub device_name: String,
    pub port: String,
    pub baudrate: u32,
    pub timeout: u64,
}

/// File-watcher adapter settings.
#[derive(Debug)]
pub struct TextFileCfg {
    pub enable: bool,
    pub target_file_path: String,
    pub monitor_dir_path: String,
    pub interval_sec: u64,
    pub monitoring_mode: String,
    pub allow_create: bool,
    pub allow_modify: bool,
    pub remove_created: bool,
    pub remove_except_modified: bool,
    pub remove_all_files: bool,
    pub remove_all_folder: bool,
}

/// Broker endpoint settings.
#[derive(Debug)]
pub struct GrpcCfg {
    pub host: String,
}

/// Raw TCP adapter settings.
#[derive(Debug)]
pub struct TcpCfg {
    pub enable: bool,
    pub host: String,
    pub port: u16,
    pub buffer_size: usize,
}

/// Camera adapter settings.
#[derive(Debug)]
pub struct CameraCfg {
    pub enable: bool,
    pub capture_interval_sec: u64,
}

/// SMTP (inbound email) adapter settings.
#[derive(Debug)]
pub struct EmailCfg {
    pub enable: bool,
    pub host_addr: String,
    pub smtp_port: u16,
    pub max_message_size: usize,
    pub max_attachment_size: usize,
    pub allowed_senders: Vec<String>,
}

/// Device-control adapter settings.
#[derive(Debug)]
pub struct BjigCfg {
    pub enable: bool,
    pub device_path: String,
    pub cli_bin_path: String,
    pub data_timeout_sec: u64,
    pub action_cooldown_sec: u64,
}

/// The whole collector configuration, one sub-structure per adapter.
#[derive(Debug)]
pub struct CollectorCfg {
    pub webhook: WebhookCfg,
    pub mqtt: MqttCfg,
    pub websocket: WebsocketCfg,
    pub grpc: GrpcCfg,
    pub ibeacon: IbeaconCfg,
    pub serial: SerialCfg,
    pub text_file: TextFileCfg,
    pub tcp: TcpCfg,
    pub camera: CameraCfg,
    pub email: EmailCfg,
    pub bjig: BjigCfg,
}

impl Default for CollectorCfg {
    /// The built-in fallback configuration: every adapter disabled, with the
    /// conventional paths, ports and windows filled in.
    fn default() -> (r: CollectorCfg)
        ensures
            !r.webhook.enable,
            r.webhook.path@ == "/webhook"@,
            r.webhook.port == 2792,
            !r.mqtt.enable,
            r.mqtt.topic@ == "kraken"@,
            r.mqtt.config_path@ == "config/mqttd.conf"@,
            !r.websocket.enable,
            r.websocket.host@ == "127.0.0.1:2794"@,
            r.grpc.host@ == "http://[::1]:50051"@,
            !r.ibeacon.enable,
            r.ibeacon.filter_duration == 1,
            r.ibeacon.allowed_uuid_filter_path@ == "config/allowed_uuids.yml"@,
            !r.serial.enable,
            r.serial.device_name@ == "unknown"@,
            r.serial.port@ == "/dev/ttyACM0"@,
            r.serial.baudrate == 9600,
            r.serial.timeout == 10,
            !r.text_file.enable,
            r.text_file.target_file_path@ == "data/data.txt"@,
            r.text_file.monitor_dir_path@ == "data/"@,
            r.text_file.interval_sec == 10,
            r.text_file.monitoring_mode@ == "time_interval"@,
            r.text_file.allow_create,
            r.text_file.allow_modify,
            !r.text_file.remove_created,
            !r.text_file.remove_except_modified,
            !r.text_file.remove_all_files,
            !r.text_file.remove_all_folder,
            !r.tcp.enable,
            r.tcp.host@ == "0.0.0.0"@,
            r.tcp.port == 2793,
            r.tcp.buffer_size == 1024,
            !r.camera.enable,
            r.camera.capture_interval_sec == 10,
            !r.email.enable,
            r.email.host_addr@ == "0.0.0.0"@,
            r.email.smtp_port == 2525,
            r.email.max_message_size == 10485760,
            r.email.max_attachment_size == 5242880,
            r.email.allowed_senders@.len() == 0,
            !r.bjig.enable,
            r.bjig.device_path@ == "/dev/ttyACM0"@,
            r.bjig.cli_bin_path@ == "bjig"@,
            r.bjig.data_timeout_sec == 300,
            r.bjig.action_cooldown_sec == 30,
    {
        CollectorCfg {
            webhook: WebhookCfg {
                enable: false,
                path: String::from_str("/webhook"),
                port: 2792,
            },
            mqtt: MqttCfg {
                enable: false,
                topic: String::from_str("kraken"),
                config_path: String::from_str("config/mqttd.conf"),
            },
            websocket: WebsocketCfg { enable: false, host: String::from_str("127.0.0.1:2794") },
            grpc: GrpcCfg { host: String::from_str("http://[::1]:50051") },
            ibeacon: IbeaconCfg {
                enable: false,
                filter_duration: 1,
                allowed_uuid_filter_path: String::from_str("config/allowed_uuids.yml"),
            },
            serial: SerialCfg {
                enable: false,
                device_name: String::from_str("unknown"),
                port: String::from_str("/dev/ttyACM0"),
                baudrate: 9600,
                timeout: 10,
            },
            text_file: TextFileCfg {
                enable: false,
                target_file_path: String::from_str("data/data.txt"),
                monitor_dir_path: String::from_str("data/"),
                interval_sec: 10,
                monitoring_mode: String::from_str("time_interval"),
                allow_create: true,
                allow_modify: true,
                remove_created: false,
                remove_except_modified: false,
                remove_all_files: false,
                remove_all_folder: false,
            },
            tcp: TcpCfg {
                enable: false,
                host: String::from_str("0.0.0.0"),
                port: 2793,
                buffer_size: 1024,
            },
            camera: CameraCfg { enable: false, capture_interval_sec: 10 },
            email: EmailCfg {
                enable: false,
                host_addr: String::from_str("0.0.0.0"),
                smtp_port: 2525,
                max_message_size: 10485760,
                max_attachment_size: 5242880,
                allowed_senders: Vec::new(),
            },
            bjig: BjigCfg {
                enable: false,
                device_path: String::from_str("/dev/ttyACM0"),
                cli_bin_path: String::from_str("bjig"),
                data_timeout_sec: 300,
                action_cooldown_sec: 30,
            },
        }
    }
}

impl Clone for WebhookCfg {
    /// Clones preserve the value exactly.
    fn clone(&self) -> (r: Self)
        ensures
            r == *self,
    {
        WebhookCfg { enable: self.enable, path: self.path.clone(), port: self.port }
    }
}

impl Clone for MqttCfg {
    /// Clones preserve the value exactly.
    fn clone(&self) -> (r: Self)
        ensures
            r == *self,
    {
        MqttCfg {
            enable: self.enable,
            topic: self.topic.clone(),
            config_path: self.config_path.clone(),
        }
    }
}

impl Clone for WebsocketCfg {
    /// Clones preserve the value exactly.
    fn clone(&self) -> (r: Self)
        ensures
            r == *self,
    {
        WebsocketCfg { enable: self.enable, host: self.host.clone() }
    }
}

impl Clone for IbeaconCfg {
    /// Clones preserve the value exactly.
    fn clone(&self) -> (r: Self)
        ensures
            r == *self,
    {
        IbeaconCfg {
            enable: self.enable,
            filter_duration: self.filter_duration,
            allowed_uuid_filter_path: self.allowed_uuid_filter_path.clone(),
        }
    }
}

impl Clone for SerialCfg {
    /// Clones preserve the value exactly.
    fn clone(&self) -> (r: Self)
        ensures
            r == *self,
    {
        SerialCfg {
            enable: self.enable,
            device_name: self.device_name.clone(),
            port: self.port.clone(),
            baudrate: self.baudrate,
            timeout: self.timeout,
        }
    }
}

impl Clone for TextFileCfg {
    /// Clones preserve the value exactly.
    fn clone(&self) -> (r: Self)
        ensures
            r == *self,
    {
        TextFileCfg {
            enable: self.enable,
            target_file_path: self.target_file_path.clone(),
            monitor_dir_path: self.monitor_dir_path.clone(),
            interval_sec: self.interval_sec,
            monitoring_mode: self.monitoring_mode.clone(),
            allow_create: self.allow_create,
            allow_modify: self.allow_modify,
            remove_created: self.remove_created,
            remove_except_modified: self.remove_except_modified,
            remove_all_files: self.remove_all_files,
            remove_all_folder: self.remove_all_folder,
        }
    }
}

impl Clone for GrpcCfg {
    /// Clones preserve the value exactly.
    fn clone(&self) -> (r: Self)
        ensures
            r == *self,
    {
        GrpcCfg { host: self.host.clone() }
    }
}

impl Clone for TcpCfg {
    /// Clones preserve the value exactly.
    fn clone(&self) -> (r: Self)
        ensures
            r == *self,
    {
        TcpCfg {
            enable: self.enable,
            host: self.host.clone(),
            port: self.port,
            buffer_size: self.buffer_size,
        }
    }
}

impl Clone for CameraCfg {
    /// Clones preserve the value exactly.
    fn clone(&self) -> (r: Self)
        ensures
            r == *self,
    {
        CameraCfg { enable: self.enable, capture_interval_sec: self.capture_interval_sec }
    }
}

/// Field-for-field equality of two email configurations; the sender list is
/// compared by contents.
pub open spec fn email_cfg_eq(a: EmailCfg, b: EmailCfg) -> bool {
    &&& a.enable == b.enable
    &&& a.host_addr == b.host_addr
    &&& a.smtp_port == b.smtp_port
    &&& a.max_message_size == b.max_message_size
    &&& a.max_attachment_size == b.max_attachment_size
    &&& a.allowed_senders@ == b.allowed_senders@
}

/// Field-for-field equality of two collector configurations.
pub open spec fn cfg_eq(a: CollectorCfg, b: CollectorCfg) -> bool {
    &&& a.webhook == b.webhook
    &&& a.mqtt == b.mqtt
    &&& a.websocket == b.websocket
    &&& a.grpc == b.grpc
    &&& a.ibeacon == b.ibeacon
    &&& a.serial == b.serial
    &&& a.text_file == b.text_file
    &&& a.tcp == b.tcp
    &&& a.camera == b.camera
    &&& email_cfg_eq(a.email, b.email)
    &&& a.bjig == b.bjig
}

impl Clone for EmailCfg {
    /// Clones preserve every field; the sender list keeps its contents.
    fn clone(&self) -> (r: Self)
        ensures
            email_cfg_eq(r, *self),
    {
        let mut allowed_senders: Vec<String> = Vec::new();
        let mut i: usize = 0;
        while i < self.allowed_senders.len()
            invariant
                i <= self.allowed_senders@.len(),
                allowed_senders@ == self.allowed_senders@.subrange(0, i as int),
            decreases self.allowed_senders@.len() - i,
        {
            allowed_senders.push(self.allowed_senders[i].clone());
            proof {
                assert(allowed_senders@ =~= self.allowed_senders@.subrange(0, i + 1));
            }
            i = i + 1;
        }
        proof {
            assert(allowed_senders@ =~= self.allowed_senders@);
        }
        EmailCfg {
            enable: self.enable,
            host_addr: self.host_addr.clone(),
            smtp_port: self.smtp_port,
            max_message_size: self.max_message_size,
            max_attachment_size: self.max_attachment_size,
            allowed_senders,
        }
    }
}

impl Clone for BjigCfg {
    /// Clones preserve the value exactly.
    fn clone(&self) -> (r: Self)
        ensures
            r == *self,
    {
        BjigCfg {
            enable: self.enable,
            device_path: self.device_path.clone(),
            cli_bin_path: self.cli_bin_path.clone(),
            data_timeout_sec: self.data_timeout_sec,
            action_cooldown_sec: self.action_cooldown_sec,
        }
    }
}

impl Clone for CollectorCfg {
    /// Clones preserve every field of every section.
    fn clone(&self) -> (r: Self)
        ensures
            cfg_eq(r, *self),
    {
        CollectorCfg {
            webhook: self.webhook.clone(),
            mqtt: self.mqtt.clone(),
            websocket: self.websocket.clone(),
            grpc: self.grpc.clone(),
            ibeacon: self.ibeacon.clone(),
            serial: self.serial.clone(),
            text_file: self.text_file.clone(),
            tcp: self.tcp.clone(),
            camera: self.camera.clone(),
            email: self.email.clone(),
            bjig: self.bjig.clone(),
        }
    }
}

} // verus!
