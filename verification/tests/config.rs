use idvs::config::{config_path, Config};
use idvs::pipewire::{
    pipewire_conf_dir, pipewire_dante_conf_path, pipewire_dante_config, pipewire_override_dir,
    pipewire_override_path,
};

fn sample() -> Config {
    Config {
        interface: "eth0".to_string(),
        device_name: "studio-dante".to_string(),
        tx_channels: 8,
        rx_channels: 16,
        sample_rate: 48000,
        latency_ns: 4_000_000,
        clock_path: "/tmp/clock".to_string(),
        observation_path: "/tmp/obs".to_string(),
        statime_bin: "/opt/statime".to_string(),
        inferno_so: "/opt/inferno.so".to_string(),
        use_pipewire: true,
    }
}

fn quantum(latency_ns: u32, sample_rate: u32) -> u32 {
    let mut config = sample();
    config.latency_ns = latency_ns;
    config.sample_rate = sample_rate;
    config.pipewire_quantum()
}

#[test]
fn quantum_is_the_largest_power_of_two_within_the_latency() {
    assert_eq!(quantum(10_000_000, 48000), 256);
    assert_eq!(quantum(4_000_000, 48000), 128);
    assert_eq!(quantum(1_000_000, 48000), 32);
    assert_eq!(quantum(40_000_000, 48000), 1024);
    assert_eq!(quantum(10_666_667, 48000), 512);
    assert_eq!(quantum(10_666_666, 48000), 256);
}

#[test]
fn quantum_is_at_least_one() {
    assert_eq!(quantum(0, 48000), 1);
    assert_eq!(quantum(1, 1), 1);
    assert_eq!(quantum(10_000_000, 0), 1);
}

#[test]
fn quantum_of_a_huge_budget_counts_its_low_bits() {
    // 4294967295 * 4294967295 / 10^9 = 18446744065 frames, of which the low 32 bits are
    // 1266874881.
    assert_eq!(quantum(u32::MAX, u32::MAX), 1 << 30);
    assert_eq!(quantum(u32::MAX, 1_000_000_000), 1 << 31);
}

#[test]
fn statime_is_configured() {
    let expected = "loglevel = \"info\"\nsdo-id = 0\ndomain = 0\npriority1 = 251\n\
        virtual-system-clock = true\nvirtual-system-clock-base = \"monotonic_raw\"\n\
        usrvclock-export = true\nusrvclock-path = \"/tmp/clock\"\n\n[[port]]\n\
        interface = \"eth0\"\nnetwork-mode = \"ipv4\"\nprotocol-version = \"PTPv1\"\n\n\
        [observability]\nobservation-path = \"/tmp/obs\"\nobservation-permissions = 0o666\n";
    assert_eq!(sample().statime_config(), expected);
}

#[test]
fn alsa_is_configured() {
    let expected = "pcm.dante {\n    type inferno\n    NAME \"studio-dante\"\n    BIND_IP \"10.0.0.7\"\n    \
        SAMPLE_RATE 48000\n    TX_CHANNELS 8\n    RX_CHANNELS 16\n    CLOCK_PATH \"/tmp/clock\"\n    \
        TX_LATENCY_NS 4000000\n    RX_LATENCY_NS 4000000\n\n    hint {\n        show on\n        \
        description \"Inferno Dante Virtual Soundcard\"\n    }\n}\n\npcm.dante_plug {\n    type plug\n    \
        slave.pcm \"dante\"\n\n    hint {\n        show on\n        \
        description \"Inferno Dante Virtual Soundcard (plug)\"\n    }\n}\n\nctl.dante {\n    type inferno\n}\n";
    assert_eq!(sample().alsa_config("10.0.0.7"), expected);
}

#[test]
fn node_command_has_four_words() {
    assert_eq!(
        sample().pipewire_node_cmd(),
        vec![
            "pw-cli",
            "create-node",
            "adapter",
            "{ object.linger=1 factory.name=api.alsa.pcm.duplex node.name=\"studio-dante\" media.class=Audio/Duplex api.alsa.path=\"dante:TX_CHANNELS=8,RX_CHANNELS=16\" session.suspend-timeout-seconds=0 node.pause-on-idle=false node.suspend-on-idle=false node.always-process=true api.alsa.headroom=0 }",
        ]
    );
}

#[test]
fn initial_configuration_follows_the_machine() {
    let config = Config::initial(Some("/opt/idvs"), Some(" studio\n"));
    assert_eq!(config.interface, "");
    assert_eq!(config.device_name, "studio-dante");
    assert_eq!(config.tx_channels, 2);
    assert_eq!(config.rx_channels, 2);
    assert_eq!(config.sample_rate, 48000);
    assert_eq!(config.latency_ns, 10_000_000);
    assert_eq!(config.clock_path, "/tmp/dante-clock");
    assert_eq!(config.observation_path, "/tmp/idvs-statime-obs.sock");
    assert_eq!(config.statime_bin, "/opt/idvs/statime");
    assert_eq!(config.inferno_so, "/opt/idvs/libasound_module_pcm_inferno.so");
    assert!(config.use_pipewire);
}

#[test]
fn initial_configuration_of_an_unknown_machine() {
    let config = Config::initial(None, None);
    assert_eq!(config.device_name, "linux-dante");
    assert_eq!(config.statime_bin, "./statime");
    assert_eq!(config.inferno_so, "./libasound_module_pcm_inferno.so");
}

#[test]
fn stored_configuration_is_preferred() {
    assert_eq!(Config::load(Some(sample()), Some("/opt"), Some("host")), sample());
    assert_eq!(
        Config::load(None, Some("/opt"), Some("host")),
        Config::initial(Some("/opt"), Some("host"))
    );
    assert_eq!(sample().clone(), sample());
}

#[test]
fn configuration_is_stored_below_the_environment() {
    assert_eq!(config_path(Some("/x"), Some("/home/u")), "/x/idvs/config.json");
    assert_eq!(config_path(None, Some("/home/u")), "/home/u/.config/idvs/config.json");
    assert_eq!(config_path(None, None), "./.config/idvs/config.json");
    assert_eq!(config_path(Some(""), None), "idvs/config.json");
}

#[test]
fn pipewire_paths_are_below_home() {
    assert_eq!(pipewire_conf_dir("/h"), "/h/.config/pipewire/pipewire.conf.d");
    assert_eq!(
        pipewire_dante_conf_path("/h"),
        "/h/.config/pipewire/pipewire.conf.d/idvs-dante.conf"
    );
    assert_eq!(pipewire_override_dir("/h"), "/h/.config/systemd/user/pipewire.service.d");
    assert_eq!(
        pipewire_override_path("/h"),
        "/h/.config/systemd/user/pipewire.service.d/override.conf"
    );
}

#[test]
fn pipewire_nodes_are_configured() {
    let node = |factory: &str, name: &str, description: &str, class: &str, channels: &str| {
        format!(
            "  {{ factory = adapter\n    args = {{\n      factory.name                    = {}\n      \
            node.name                       = \"{}\"\n      node.description                = \"{}\"\n      \
            media.class                     = {}\n      api.alsa.path                   = dante\n      \
            api.alsa.headroom               = 0\n      audio.channels                  = {}\n      \
            audio.rate                      = 48000\n      object.linger                   = true\n      \
            node.always-process             = true\n      session.suspend-timeout-seconds = 0\n    }}\n  }}\n",
            factory, name, description, class, channels
        )
    };
    let expected = format!(
        "context.objects = [\n{}{}]\n",
        node("api.alsa.pcm.sink", "studio-dante-sink", "studio-dante (Dante Playback)", "Audio/Sink", "8"),
        node(
            "api.alsa.pcm.source",
            "studio-dante-source",
            "studio-dante (Dante Capture)",
            "Audio/Source",
            "16"
        ),
    );
    assert_eq!(pipewire_dante_config(&sample()), expected);
}
