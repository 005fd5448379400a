//! The user's configuration and the configuration texts that follow from it.

use crate::text;
use vstd::prelude::*;
use vstd::string::*;

verus! {

#[derive(Debug, PartialEq)]
pub struct Config {
    pub interface: String,
    pub device_name: String,
    pub tx_channels: u32,
    pub rx_channels: u32,
    pub sample_rate: u32,
    pub latency_ns: u32,
    /// Path where statime will export its usrvclock socket
    pub clock_path: String,
    /// Path for statime observation socket (PTP status monitoring)
    pub observation_path: String,
    /// Path to the statime binary
    pub statime_bin: String,
    /// Path to libasound_module_pcm_inferno.so
    pub inferno_so: String,
    /// Whether to set up a persistent PipeWire node
    pub use_pipewire: bool,
}

/// A [`Config`] with its texts as sequences of characters.
pub struct ConfigView {
    pub interface: Seq<char>,
    pub device_name: Seq<char>,
    pub tx_channels: u32,
    pub rx_channels: u32,
    pub sample_rate: u32,
    pub latency_ns: u32,
    pub clock_path: Seq<char>,
    pub observation_path: Seq<char>,
    pub statime_bin: Seq<char>,
    pub inferno_so: Seq<char>,
    pub use_pipewire: bool,
}

impl View for Config {
    type V = ConfigView;

    open spec fn view(&self) -> ConfigView {
        ConfigView {
            interface: self.interface@,
            device_name: self.device_name@,
            tx_channels: self.tx_channels,
            rx_channels: self.rx_channels,
            sample_rate: self.sample_rate,
            latency_ns: self.latency_ns,
            clock_path: self.clock_path@,
            observation_path: self.observation_path@,
            statime_bin: self.statime_bin@,
            inferno_so: self.inferno_so@,
            use_pipewire: self.use_pipewire,
        }
    }
}

impl Clone for Config {
    fn clone(&self) -> (r: Self)
        ensures
            r == *self,
    {
        Config {
            interface: self.interface.clone(),
            device_name: self.device_name.clone(),
            tx_channels: self.tx_channels,
            rx_channels: self.rx_channels,
            sample_rate: self.sample_rate,
            latency_ns: self.latency_ns,
            clock_path: self.clock_path.clone(),
            observation_path: self.observation_path.clone(),
            statime_bin: self.statime_bin.clone(),
            inferno_so: self.inferno_so.clone(),
            use_pipewire: self.use_pipewire,
        }
    }
}

/// The characters of an optional text.
pub open spec fn opt_text(t: Option<&str>) -> Option<Seq<char>> {
    match t {
        Some(s) => Some(s@),
        None => None,
    }
}

/// The characters of an optional text, or of a default.
pub open spec fn text_or(t: Option<Seq<char>>, default: Seq<char>) -> Seq<char> {
    match t {
        Some(s) => s,
        None => default,
    }
}

/// The optional text, or a default.
pub fn or_text<'a>(t: Option<&'a str>, default: &'a str) -> (r: &'a str)
    ensures
        r@ == text_or(opt_text(t), default@),
{
    match t {
        Some(s) => s,
        None => default,
    }
}

impl ConfigView {
    /// The configuration to begin with on a machine: the device is named after the host, and
    /// statime and the plugin are looked for next to the running program. Where the program's
    /// directory is not known it is the current one, and where the host has no name it is
    /// "linux".
    pub open spec fn initial(exe_dir: Option<Seq<char>>, hostname: Option<Seq<char>>) -> ConfigView {
        let dir = text_or(exe_dir, "."@);
        ConfigView {
            interface: Seq::empty(),
            device_name: text::trimmed(text_or(hostname, "linux"@)) + "-dante"@,
            tx_channels: 2,
            rx_channels: 2,
            sample_rate: 48000,
            latency_ns: 10_000_000,
            clock_path: "/tmp/dante-clock"@,
            observation_path: "/tmp/idvs-statime-obs.sock"@,
            statime_bin: text::joined(dir, "statime"@),
            inferno_so: text::joined(dir, "libasound_module_pcm_inferno.so"@),
            use_pipewire: true,
        }
    }

    /// The configuration to use: the stored one, or the initial one of the machine.
    pub open spec fn loaded(
        stored: Option<ConfigView>,
        exe_dir: Option<Seq<char>>,
        hostname: Option<Seq<char>>,
    ) -> ConfigView {
        match stored {
            Some(config) => config,
            None => ConfigView::initial(exe_dir, hostname),
        }
    }

    /// How many whole frames pass within the configured latency.
    pub open spec fn frames(self) -> nat {
        (self.latency_ns * self.sample_rate / 1_000_000_000) as nat
    }

    /// The same, but at least one.
    pub open spec fn frame_budget(self) -> nat {
        if self.frames() < 1 {
            1
        } else {
            self.frames()
        }
    }

    /// The statime TOML configuration.
    pub open spec fn statime_text(self) -> Seq<char> {
        r#"loglevel = "info"
sdo-id = 0
domain = 0
priority1 = 251
virtual-system-clock = true
virtual-system-clock-base = "monotonic_raw"
usrvclock-export = true
usrvclock-path = ""#@ + self.clock_path + r#""

[[port]]
interface = ""#@ + self.interface + r#""
network-mode = "ipv4"
protocol-version = "PTPv1"

[observability]
observation-path = ""#@ + self.observation_path + r#""
observation-permissions = 0o666
"#@
    }

    /// The ALSA device configuration, bound to the address `bind_ip`.
    pub open spec fn alsa_text(self, bind_ip: Seq<char>) -> Seq<char> {
        r#"pcm.dante {
    type inferno
    NAME ""#@ + self.device_name + r#""
    BIND_IP ""#@ + bind_ip + r#""
    SAMPLE_RATE "#@ + text::decimal(self.sample_rate as nat) + r#"
    TX_CHANNELS "#@ + text::decimal(self.tx_channels as nat) + r#"
    RX_CHANNELS "#@ + text::decimal(self.rx_channels as nat) + r#"
    CLOCK_PATH ""#@ + self.clock_path + r#""
    TX_LATENCY_NS "#@ + text::decimal(self.latency_ns as nat) + r#"
    RX_LATENCY_NS "#@ + text::decimal(self.latency_ns as nat) + r#"

    hint {
        show on
        description "Inferno Dante Virtual Soundcard"
    }
}

pcm.dante_plug {
    type plug
    slave.pcm "dante"

    hint {
        show on
        description "Inferno Dante Virtual Soundcard (plug)"
    }
}

ctl.dante {
    type inferno
}
"#@
    }

    /// The ALSA path of the device with its channel counts.
    pub open spec fn alsa_path(self) -> Seq<char> {
        "dante:TX_CHANNELS="@ + text::decimal(self.tx_channels as nat) + ",RX_CHANNELS="@
            + text::decimal(self.rx_channels as nat)
    }

    /// The pw-cli command, word by word.
    pub open spec fn node_words(self) -> Seq<Seq<char>> {
        seq![
            "pw-cli"@,
            "create-node"@,
            "adapter"@,
            "{ object.linger=1 factory.name=api.alsa.pcm.duplex node.name=\""@ + self.device_name
                + "\" media.class=Audio/Duplex api.alsa.path=\""@ + self.alsa_path()
                + "\" session.suspend-timeout-seconds=0 node.pause-on-idle=false node.suspend-on-idle=false node.always-process=true api.alsa.headroom=0 }"@,
        ]
    }
}

impl Config {
    /// The configuration to begin with on a machine, from the directory of the running program
    /// and the host's name, where they are known.
    pub fn initial(exe_dir: Option<&str>, hostname: Option<&str>) -> (r: Config)
        ensures
            r@ == ConfigView::initial(opt_text(exe_dir), opt_text(hostname)),
    {
        let dir = or_text(exe_dir, ".");
        let host = text::trim(or_text(hostname, "linux"));
        Config {
            interface: String::new(),
            device_name: host.to_owned().concat("-dante"),
            tx_channels: 2,
            rx_channels: 2,
            sample_rate: 48000,
            latency_ns: 10_000_000,
            clock_path: "/tmp/dante-clock".to_owned(),
            observation_path: "/tmp/idvs-statime-obs.sock".to_owned(),
            statime_bin: text::join_path(dir, "statime"),
            inferno_so: text::join_path(dir, "libasound_module_pcm_inferno.so"),
            use_pipewire: true,
        }
    }

    /// The stored configuration where one could be read, and otherwise the initial one.
    pub fn load(stored: Option<Config>, exe_dir: Option<&str>, hostname: Option<&str>) -> (r: Config)
        ensures
            r@ == match stored {
                Some(config) => config@,
                None => ConfigView::initial(opt_text(exe_dir), opt_text(hostname)),
            },
            r@ == ConfigView::loaded(
                match stored {
                    Some(config) => Some(config@),
                    None => None,
                },
                opt_text(exe_dir),
                opt_text(hostname),
            ),
    {
        match stored {
            Some(config) => config,
            None => Config::initial(exe_dir, hostname),
        }
    }

    /// PipeWire quantum derived from the configured latency and sample rate.
    /// Rounded down to the nearest power of two so it fits within the Dante
    /// network latency budget while staying compatible with audio drivers.
    /// Of a budget of more than 32 bits only the low 32 bits count.
    pub fn pipewire_quantum(&self) -> (r: u32)
        requires
            self@.frame_budget() % 0x1_0000_0000 != 0,
        ensures
            exists|k: nat| r == #[trigger] vstd::arithmetic::power2::pow2(k),
            r <= self@.frame_budget() % 0x1_0000_0000 < 2 * r,
            self@.frame_budget() <= u32::MAX ==> r <= self@.frame_budget() < 2 * r,
    {
        assert(self.latency_ns * self.sample_rate <= 0xffff_ffff * 0xffff_ffff) by (nonlinear_arith)
            requires
                self.latency_ns <= 0xffff_ffff,
                self.sample_rate <= 0xffff_ffff,
        ;
        let frames: u64 = self.latency_ns as u64 * self.sample_rate as u64 / 1_000_000_000;
        let budget: u64 = if frames < 1 {
            1
        } else {
            frames
        };
        let low: u32 = #[verifier::truncate] (budget as u32);
        assert(low == budget % 0x1_0000_0000) by (bit_vector)
            requires
                low == budget as u32,
        ;
        let zeros: u32 = low.leading_zeros();
        proof {
            vstd::std_specs::bits::axiom_u32_leading_zeros(low);
        }
        let k: u32 = 31 - zeros;
        let r: u32 = 1u32 << k;
        proof {
            let above: u32 = (32 - zeros) as u32;
            assert(low >> above == 0);
            assert((low >> k) & 1u32 != 0u32);
            assert(r <= low && low < 2 * r) by (bit_vector)
                requires
                    r == 1u32 << k,
                    k < 32,
                    above == k + 1,
                    k < 31 ==> low >> above == 0,
                    (low >> k) & 1u32 != 0u32,
            ;
            vstd::bits::lemma_u32_pow2_no_overflow(k as nat);
            vstd::bits::lemma_u32_shl_is_mul(1u32, k);
            assert(r == vstd::arithmetic::power2::pow2(k as nat));
        }
        r
    }

    /// Generate the statime TOML configuration content
    pub fn statime_config(&self) -> (r: String)
        ensures
            r@ == self@.statime_text(),
    {
        r#"loglevel = "info"
sdo-id = 0
domain = 0
priority1 = 251
virtual-system-clock = true
virtual-system-clock-base = "monotonic_raw"
usrvclock-export = true
usrvclock-path = ""#.to_owned().concat(self.clock_path.as_str()).concat(
            r#""

[[port]]
interface = ""#,
        ).concat(self.interface.as_str()).concat(
            r#""
network-mode = "ipv4"
protocol-version = "PTPv1"

[observability]
observation-path = ""#,
        ).concat(self.observation_path.as_str()).concat(
            r#""
observation-permissions = 0o666
"#,
        )
    }

    /// Generate the ALSA device configuration for ~/.asoundrc.
    /// The plugin .so is expected to be installed in the system ALSA lib dir
    /// (installed by idvs on startup via pkexec). ALSA finds it automatically
    /// by the naming convention libasound_module_pcm_inferno.so.
    pub fn alsa_config(&self, bind_ip: &str) -> (r: String)
        ensures
            r@ == self@.alsa_text(bind_ip@),
    {
        let latency = text::decimal_text(self.latency_ns);
        r#"pcm.dante {
    type inferno
    NAME ""#.to_owned().concat(self.device_name.as_str()).concat(
            r#""
    BIND_IP ""#,
        ).concat(bind_ip).concat(
            r#""
    SAMPLE_RATE "#,
        ).concat(text::decimal_text(self.sample_rate).as_str()).concat(
            r#"
    TX_CHANNELS "#,
        ).concat(text::decimal_text(self.tx_channels).as_str()).concat(
            r#"
    RX_CHANNELS "#,
        ).concat(text::decimal_text(self.rx_channels).as_str()).concat(
            r#"
    CLOCK_PATH ""#,
        ).concat(self.clock_path.as_str()).concat(
            r#""
    TX_LATENCY_NS "#,
        ).concat(latency.as_str()).concat(
            r#"
    RX_LATENCY_NS "#,
        ).concat(latency.as_str()).concat(
            r#"

    hint {
        show on
        description "Inferno Dante Virtual Soundcard"
    }
}

pcm.dante_plug {
    type plug
    slave.pcm "dante"

    hint {
        show on
        description "Inferno Dante Virtual Soundcard (plug)"
    }
}

ctl.dante {
    type inferno
}
"#,
        )
    }

    /// Build the pw-cli command to create a persistent PipeWire node (for reference/debugging)
    pub fn pipewire_node_cmd(&self) -> (r: Vec<String>)
        ensures
            text::texts(r@) == self@.node_words(),
    {
        let alsa_path = "dante:TX_CHANNELS=".to_owned().concat(
            text::decimal_text(self.tx_channels).as_str(),
        ).concat(",RX_CHANNELS=").concat(text::decimal_text(self.rx_channels).as_str());
        let node =
            "{ object.linger=1 factory.name=api.alsa.pcm.duplex node.name=\"".to_owned().concat(
            self.device_name.as_str(),
        ).concat("\" media.class=Audio/Duplex api.alsa.path=\"").concat(alsa_path.as_str()).concat(
            "\" session.suspend-timeout-seconds=0 node.pause-on-idle=false node.suspend-on-idle=false node.always-process=true api.alsa.headroom=0 }",
        );
        let mut r: Vec<String> = Vec::new();
        r.push("pw-cli".to_owned());
        r.push("create-node".to_owned());
        r.push("adapter".to_owned());
        r.push(node);
        assert(text::texts(r@) =~= self@.node_words());
        r
    }
}

/// The path of the stored configuration, from the environment's `XDG_CONFIG_HOME` and `HOME`:
/// the former is the directory for configurations; without it that is ".config" in the home
/// directory, and without that in the current one.
pub open spec fn config_file(xdg: Option<Seq<char>>, home: Option<Seq<char>>) -> Seq<char> {
    let dir = match xdg {
        Some(dir) => dir,
        None => text::joined(text_or(home, "."@), ".config"@),
    };
    text::joined(text::joined(dir, "idvs"@), "config.json"@)
}

/// The path of the stored configuration, from the environment's `XDG_CONFIG_HOME` and `HOME`.
pub fn config_path(xdg: Option<&str>, home: Option<&str>) -> (r: String)
    ensures
        r@ == config_file(opt_text(xdg), opt_text(home)),
{
    let dir = match xdg {
        Some(dir) => dir.to_owned(),
        None => text::join_path(or_text(home, "."), ".config"),
    };
    text::join_path(text::join_path(dir.as_str(), "idvs").as_str(), "config.json")
}

// ---------------------------------------------------------------------------
// What the configuration is for
// ---------------------------------------------------------------------------

/// The fixed parts of the statime configuration, in turn.
spec fn statime_part(i: int) -> Seq<char> {
    if i == 0 {
        r#"loglevel = "info"
sdo-id = 0
domain = 0
priority1 = 251
virtual-system-clock = true
virtual-system-clock-base = "monotonic_raw"
usrvclock-export = true
usrvclock-path = ""#@
    } else if i == 1 {
        r#""

[[port]]
interface = ""#@
    } else if i == 2 {
        r#""
network-mode = "ipv4"
protocol-version = "PTPv1"

[observability]
observation-path = ""#@
    } else {
        r#""
observation-permissions = 0o666
"#@
    }
}

/// The statime configuration is one fixed text, the same for every configuration, in which
/// the clock's path stands as the value of "usrvclock-path", the interface as that of
/// "interface", and the observation socket as that of "observation-path", each as it is
/// configured.
pub proof fn statime_reads_its_settings()
    ensures
        exists|a: Seq<char>, b: Seq<char>, c: Seq<char>, d: Seq<char>| #[trigger]
            statime_frame(a, b, c, d) && text::ends_with(a, "\nusrvclock-path = \""@)
                && text::begins_with(b, "\"\n"@) && text::ends_with(
                b,
                "\n[[port]]\ninterface = \""@,
            ) && text::begins_with(c, "\"\n"@) && text::ends_with(
                c,
                "\n[observability]\nobservation-path = \""@,
            ) && text::begins_with(d, "\"\n"@),
{
    reveal_strlit(r#"loglevel = "info"
sdo-id = 0
domain = 0
priority1 = 251
virtual-system-clock = true
virtual-system-clock-base = "monotonic_raw"
usrvclock-export = true
usrvclock-path = ""#);
    reveal_strlit(r#""

[[port]]
interface = ""#);
    reveal_strlit(r#""
network-mode = "ipv4"
protocol-version = "PTPv1"

[observability]
observation-path = ""#);
    reveal_strlit(r#""
observation-permissions = 0o666
"#);
    reveal_strlit("\nusrvclock-path = \"");
    reveal_strlit("\"\n");
    reveal_strlit("\n[[port]]\ninterface = \"");
    reveal_strlit("\n[observability]\nobservation-path = \"");
    let (a, b, c, d) = (statime_part(0), statime_part(1), statime_part(2), statime_part(3));
    assert(a.skip(a.len() - "\nusrvclock-path = \""@.len()) =~= "\nusrvclock-path = \""@);
    assert(b.take("\"\n"@.len() as int) =~= "\"\n"@);
    assert(b.skip(b.len() - "\n[[port]]\ninterface = \""@.len())
        =~= "\n[[port]]\ninterface = \""@);
    assert(c.take("\"\n"@.len() as int) =~= "\"\n"@);
    assert(c.skip(c.len() - "\n[observability]\nobservation-path = \""@.len())
        =~= "\n[observability]\nobservation-path = \""@);
    assert(d.take("\"\n"@.len() as int) =~= "\"\n"@);
    assert(statime_frame(a, b, c, d));
}

/// Whether every statime configuration consists of these four texts, with the configured clock
/// path, interface and observation socket between them.
pub open spec fn statime_frame(a: Seq<char>, b: Seq<char>, c: Seq<char>, d: Seq<char>) -> bool {
    forall|config: ConfigView| #[trigger]
        config.statime_text() == a + config.clock_path + b + config.interface + c
            + config.observation_path + d
}

/// What statime is told of a configuration stands in its text, right where statime looks.
pub proof fn statime_is_told(config: ConfigView)
    ensures
        text::stands_between(
            config.statime_text(),
            "\nusrvclock-path = \""@,
            config.clock_path,
            "\"\n"@,
        ),
        text::stands_between(
            config.statime_text(),
            "\n[[port]]\ninterface = \""@,
            config.interface,
            "\"\n"@,
        ),
        text::stands_between(
            config.statime_text(),
            "\n[observability]\nobservation-path = \""@,
            config.observation_path,
            "\"\n"@,
        ),
{
    statime_reads_its_settings();
    let (a, b, c, d) = choose|a: Seq<char>, b: Seq<char>, c: Seq<char>, d: Seq<char>| #[trigger]
        statime_frame(a, b, c, d) && text::ends_with(a, "\nusrvclock-path = \""@)
            && text::begins_with(b, "\"\n"@) && text::ends_with(
            b,
            "\n[[port]]\ninterface = \""@,
        ) && text::begins_with(c, "\"\n"@) && text::ends_with(
            c,
            "\n[observability]\nobservation-path = \""@,
        ) && text::begins_with(d, "\"\n"@);
    let t = config.statime_text();
    let after_clock = b + config.interface + c + config.observation_path + d;
    let after_interface = c + config.observation_path + d;
    let before_interface = a + config.clock_path + b;
    let before_observation = before_interface + config.interface + c;
    assert(t =~= a + config.clock_path + after_clock);
    assert(t =~= before_interface + config.interface + after_interface);
    assert(t =~= before_observation + config.observation_path + d);
    assert(after_clock.take("\"\n"@.len() as int) =~= b.take("\"\n"@.len() as int));
    assert(after_interface.take("\"\n"@.len() as int) =~= c.take("\"\n"@.len() as int));
    let h = "\n[[port]]\ninterface = \""@.len();
    assert(before_interface.skip(before_interface.len() - h) =~= b.skip(b.len() - h));
    let k = "\n[observability]\nobservation-path = \""@.len();
    assert(before_observation.skip(before_observation.len() - k) =~= c.skip(c.len() - k));
    text::stands_between_ends(
        a,
        config.clock_path,
        after_clock,
        "\nusrvclock-path = \""@,
        "\"\n"@,
    );
    text::stands_between_ends(
        before_interface,
        config.interface,
        after_interface,
        "\n[[port]]\ninterface = \""@,
        "\"\n"@,
    );
    text::stands_between_ends(
        before_observation,
        config.observation_path,
        d,
        "\n[observability]\nobservation-path = \""@,
        "\"\n"@,
    );
}

/// Two configurations tell statime the same only where they agree on the clock's path, the
/// interface and the observation socket, as long as these hold no quotation mark; and what else
/// they hold makes no difference to statime.
pub proof fn statime_tells_configurations_apart(x: ConfigView, y: ConfigView)
    ensures
        x.clock_path == y.clock_path && x.interface == y.interface && x.observation_path
            == y.observation_path ==> x.statime_text() == y.statime_text(),
        ({
            &&& x.statime_text() == y.statime_text()
            &&& !x.clock_path.contains('"') && !x.interface.contains('"')
                && !x.observation_path.contains('"')
            &&& !y.clock_path.contains('"') && !y.interface.contains('"')
                && !y.observation_path.contains('"')
        }) ==> x.clock_path == y.clock_path && x.interface == y.interface && x.observation_path
            == y.observation_path,
{
    statime_reads_its_settings();
    let (a, b, c, d) = choose|a: Seq<char>, b: Seq<char>, c: Seq<char>, d: Seq<char>| #[trigger]
        statime_frame(a, b, c, d) && text::ends_with(a, "\nusrvclock-path = \""@)
            && text::begins_with(b, "\"\n"@) && text::ends_with(
            b,
            "\n[[port]]\ninterface = \""@,
        ) && text::begins_with(c, "\"\n"@) && text::ends_with(
            c,
            "\n[observability]\nobservation-path = \""@,
        ) && text::begins_with(d, "\"\n"@);
    reveal_strlit("\"\n");
    assert("\"\n"@[0] == '"');
    assert(b[0] == b.take(2)[0] && c[0] == c.take(2)[0] && d[0] == d.take(2)[0]);
    assert(x.statime_text() == a + x.clock_path + b + x.interface + c + x.observation_path + d);
    assert(y.statime_text() == a + y.clock_path + b + y.interface + c + y.observation_path + d);
    if x.statime_text() == y.statime_text() && !x.clock_path.contains('"')
        && !x.interface.contains('"') && !x.observation_path.contains('"')
        && !y.clock_path.contains('"') && !y.interface.contains('"')
        && !y.observation_path.contains('"') {
        let x2 = c + x.observation_path + d;
        let y2 = c + y.observation_path + d;
        let x1 = b + x.interface + x2;
        let y1 = b + y.interface + y2;
        assert(x.statime_text() =~= a + (x.clock_path + x1));
        assert(y.statime_text() =~= a + (y.clock_path + y1));
        assert(x.clock_path + x1 =~= x.statime_text().skip(a.len() as int));
        assert(y.clock_path + y1 =~= y.statime_text().skip(a.len() as int));
        text::quoted_is_told_apart(x.clock_path, x1, y.clock_path, y1);
        assert(x.interface + x2 =~= x1.skip(b.len() as int));
        assert(y.interface + y2 =~= y1.skip(b.len() as int));
        text::quoted_is_told_apart(x.interface, x2, y.interface, y2);
        assert(x.observation_path + d =~= x2.skip(c.len() as int));
        assert(y.observation_path + d =~= y2.skip(c.len() as int));
        text::quoted_is_told_apart(x.observation_path, d, y.observation_path, d);
    }
}

/// The fixed parts of the ALSA configuration, in turn.
spec fn alsa_part(i: int) -> Seq<char> {
    if i == 0 {
        r#"pcm.dante {
    type inferno
    NAME ""#@
    } else if i == 1 {
        r#""
    BIND_IP ""#@
    } else if i == 2 {
        r#""
    SAMPLE_RATE "#@
    } else if i == 3 {
        r#"
    TX_CHANNELS "#@
    } else if i == 4 {
        r#"
    RX_CHANNELS "#@
    } else if i == 5 {
        r#"
    CLOCK_PATH ""#@
    } else if i == 6 {
        r#""
    TX_LATENCY_NS "#@
    } else if i == 7 {
        r#"
    RX_LATENCY_NS "#@
    } else {
        r#"

    hint {
        show on
        description "Inferno Dante Virtual Soundcard"
    }
}

pcm.dante_plug {
    type plug
    slave.pcm "dante"

    hint {
        show on
        description "Inferno Dante Virtual Soundcard (plug)"
    }
}

ctl.dante {
    type inferno
}
"#@
    }
}

/// The ALSA configuration is one fixed text, the same for every configuration and address, in
/// which each setting of the device "dante" has the value that is configured for it: its name,
/// the address, the rate, the channels of each direction, the clock's path, and the latency for
/// both directions.
pub proof fn alsa_reads_its_settings()
    ensures
        exists|p: Seq<Seq<char>>| #[trigger] alsa_frame(p) && alsa_frame_gaps(p),
{
    reveal_strlit(r#"pcm.dante {
    type inferno
    NAME ""#);
    reveal_strlit(r#""
    BIND_IP ""#);
    reveal_strlit(r#""
    SAMPLE_RATE "#);
    reveal_strlit(r#"
    TX_CHANNELS "#);
    reveal_strlit(r#"
    RX_CHANNELS "#);
    reveal_strlit(r#"
    CLOCK_PATH ""#);
    reveal_strlit(r#""
    TX_LATENCY_NS "#);
    reveal_strlit(r#"
    RX_LATENCY_NS "#);
    reveal_strlit(r#"

    hint {
        show on
        description "Inferno Dante Virtual Soundcard"
    }
}

pcm.dante_plug {
    type plug
    slave.pcm "dante"

    hint {
        show on
        description "Inferno Dante Virtual Soundcard (plug)"
    }
}

ctl.dante {
    type inferno
}
"#);
    reveal_strlit("\"\n");
    reveal_strlit("\n    BIND_IP \"");
    reveal_strlit("\n    CLOCK_PATH \"");
    reveal_strlit("\n    RX_CHANNELS ");
    reveal_strlit("\n    RX_LATENCY_NS ");
    reveal_strlit("\n    SAMPLE_RATE ");
    reveal_strlit("\n    TX_CHANNELS ");
    reveal_strlit("\n    TX_LATENCY_NS ");
    reveal_strlit("\n");
    reveal_strlit("pcm.dante {\n    type inferno\n    NAME \"");
    let p = Seq::new(9, |i: int| alsa_part(i));
    text::gap_by_characters(p, 0, "pcm.dante {\n    type inferno\n    NAME \""@, "\"\n"@);
    text::gap_by_characters(p, 1, "\n    BIND_IP \""@, "\"\n"@);
    text::gap_by_characters(p, 2, "\n    SAMPLE_RATE "@, "\n"@);
    text::gap_by_characters(p, 3, "\n    TX_CHANNELS "@, "\n"@);
    text::gap_by_characters(p, 4, "\n    RX_CHANNELS "@, "\n"@);
    text::gap_by_characters(p, 5, "\n    CLOCK_PATH \""@, "\"\n"@);
    text::gap_by_characters(p, 6, "\n    TX_LATENCY_NS "@, "\n"@);
    text::gap_by_characters(p, 7, "\n    RX_LATENCY_NS "@, "\n"@);
    assert(alsa_frame(p));
}

/// Where the values stand between these texts.
pub open spec fn alsa_frame_gaps(p: Seq<Seq<char>>) -> bool {
    &&& text::gap(p, 0, "pcm.dante {\n    type inferno\n    NAME \""@, "\"\n"@)
    &&& text::gap(p, 1, "\n    BIND_IP \""@, "\"\n"@)
    &&& text::gap(p, 2, "\n    SAMPLE_RATE "@, "\n"@)
    &&& text::gap(p, 3, "\n    TX_CHANNELS "@, "\n"@)
    &&& text::gap(p, 4, "\n    RX_CHANNELS "@, "\n"@)
    &&& text::gap(p, 5, "\n    CLOCK_PATH \""@, "\"\n"@)
    &&& text::gap(p, 6, "\n    TX_LATENCY_NS "@, "\n"@)
    &&& text::gap(p, 7, "\n    RX_LATENCY_NS "@, "\n"@)
}

/// Whether every ALSA configuration consists of these texts, with the configured values between
/// them.
pub open spec fn alsa_frame(p: Seq<Seq<char>>) -> bool {
    p.len() == 9 && forall|config: ConfigView, ip: Seq<char>| #[trigger]
        config.alsa_text(ip) == p[0] + config.device_name + p[1] + ip + p[2] + text::decimal(
            config.sample_rate as nat,
        ) + p[3] + text::decimal(config.tx_channels as nat) + p[4] + text::decimal(
            config.rx_channels as nat,
        ) + p[5] + config.clock_path + p[6] + text::decimal(config.latency_ns as nat) + p[7]
            + text::decimal(config.latency_ns as nat) + p[8]
}

/// The command that creates a node has four words, of which only the last depends on the
/// configuration: the device's name stands in it as the node's, and the channels of each
/// direction in the ALSA path.
pub proof fn node_command_names_the_device()
    ensures
        exists|a: Seq<char>, b: Seq<char>, c: Seq<char>, d: Seq<char>| #[trigger]
            node_frame(a, b, c, d) && text::ends_with(a, " node.name=\""@) && text::begins_with(
                b,
                "\" "@,
            ) && text::ends_with(b, " api.alsa.path=\"dante:TX_CHANNELS="@) && c
                == ",RX_CHANNELS="@ && text::begins_with(d, "\" "@),
        forall|x: ConfigView, y: ConfigView, i: int|
            0 <= i < 3 ==> (#[trigger] x.node_words()[i]) == (#[trigger] y.node_words()[i]),
{
    reveal_strlit("{ object.linger=1 factory.name=api.alsa.pcm.duplex node.name=\"");
    reveal_strlit("\" media.class=Audio/Duplex api.alsa.path=\"");
    reveal_strlit("\" session.suspend-timeout-seconds=0 node.pause-on-idle=false node.suspend-on-idle=false node.always-process=true api.alsa.headroom=0 }");
    reveal_strlit(" node.name=\"");
    reveal_strlit("\" ");
    reveal_strlit(" api.alsa.path=\"dante:TX_CHANNELS=");
    reveal_strlit("dante:TX_CHANNELS=");
    let a = "{ object.linger=1 factory.name=api.alsa.pcm.duplex node.name=\""@;
    let b = "\" media.class=Audio/Duplex api.alsa.path=\""@ + "dante:TX_CHANNELS="@;
    let c = ",RX_CHANNELS="@;
    let d = "\" session.suspend-timeout-seconds=0 node.pause-on-idle=false node.suspend-on-idle=false node.always-process=true api.alsa.headroom=0 }"@;
    assert(a.skip(a.len() - " node.name=\""@.len()) =~= " node.name=\""@);
    assert(b.take("\" "@.len() as int) =~= "\" "@);
    assert(b.skip(b.len() - " api.alsa.path=\"dante:TX_CHANNELS="@.len())
        =~= " api.alsa.path=\"dante:TX_CHANNELS="@);
    assert(d.take("\" "@.len() as int) =~= "\" "@);
    assert(node_frame(a, b, c, d)) by {
        assert forall|config: ConfigView| (#[trigger] config.node_words()).len() == 4
            && config.node_words()[3] == a + config.device_name + b + text::decimal(
            config.tx_channels as nat,
        ) + c + text::decimal(config.rx_channels as nat) + d by {
            assert(config.node_words()[3] =~= a + config.device_name + b + text::decimal(
                config.tx_channels as nat,
            ) + c + text::decimal(config.rx_channels as nat) + d);
        }
    }
}

/// Whether every command that creates a node has four words, and the last consists of these
/// texts, with the configured values between them.
pub open spec fn node_frame(a: Seq<char>, b: Seq<char>, c: Seq<char>, d: Seq<char>) -> bool {
    forall|config: ConfigView|
        (#[trigger] config.node_words()).len() == 4 && config.node_words()[3] == a
            + config.device_name + b + text::decimal(config.tx_channels as nat) + c + text::decimal(
            config.rx_channels as nat,
        ) + d
}

/// As many whole frames pass within the latency as fit in it at the sample rate: so many do,
/// and one more does not.
pub proof fn frames_fit_the_latency(c: ConfigView)
    ensures
        c.frames() * 1_000_000_000 <= c.latency_ns * c.sample_rate,
        c.latency_ns * c.sample_rate < (c.frames() + 1) * 1_000_000_000,
        c.frame_budget() >= 1,
        c.frames() >= 1 ==> c.frame_budget() == c.frames(),
        c.frames() == 0 ==> c.frame_budget() == 1,
{
    let n = c.latency_ns * c.sample_rate;
    assert(n >= 0) by (nonlinear_arith)
        requires
            n == c.latency_ns * c.sample_rate,
            c.latency_ns >= 0,
            c.sample_rate >= 0,
    ;
}

/// On every machine the same configuration is begun with, but for the device's name, which
/// follows from the host's alone, and the two paths, which follow from the program's directory
/// alone and lie in it. The host's name counts without white space around it.
pub proof fn machines_begin_alike(
    d: Option<Seq<char>>,
    h: Option<Seq<char>>,
    e: Option<Seq<char>>,
    i: Option<Seq<char>>,
)
    ensures
        ({
            let x = ConfigView::initial(d, h);
            let y = ConfigView::initial(e, i);
            &&& y == (ConfigView {
                device_name: y.device_name,
                statime_bin: y.statime_bin,
                inferno_so: y.inferno_so,
                ..x
            })
            &&& d == e ==> x.statime_bin == y.statime_bin && x.inferno_so == y.inferno_so
            &&& h == i ==> x.device_name == y.device_name
        }),
        h matches Some(host) ==> ConfigView::initial(d, h).device_name == text::trimmed(host)
            + "-dante"@,
        ConfigView::initial(d, None).device_name == "linux-dante"@,
        d matches Some(dir) ==> (dir.len() > 0 && dir.last() != '/' ==> ConfigView::initial(
            d,
            h,
        ).statime_bin == dir + "/statime"@ && ConfigView::initial(d, h).inferno_so == dir
            + "/libasound_module_pcm_inferno.so"@),
        d matches Some(dir) ==> ConfigView::initial(d, h).statime_bin == text::joined(
            dir,
            "statime"@,
        ) && ConfigView::initial(d, h).inferno_so == text::joined(
            dir,
            "libasound_module_pcm_inferno.so"@,
        ),
        ConfigView::initial(None, h).statime_bin == "./statime"@,
        ConfigView::initial(None, h).inferno_so == "./libasound_module_pcm_inferno.so"@,
{
    reveal_strlit("linux");
    reveal_strlit("-dante");
    reveal_strlit("linux-dante");
    reveal_strlit("statime");
    reveal_strlit("/statime");
    reveal_strlit("./statime");
    reveal_strlit("libasound_module_pcm_inferno.so");
    reveal_strlit("/libasound_module_pcm_inferno.so");
    reveal_strlit("./libasound_module_pcm_inferno.so");
    reveal_strlit("/");
    reveal_strlit(".");
    text::trimmed_of_clean("linux"@);
    assert("linux"@ + "-dante"@ =~= "linux-dante"@);
    assert("."@ + "/"@ + "statime"@ =~= "./statime"@);
    assert("."@ + "/"@ + "libasound_module_pcm_inferno.so"@
        =~= "./libasound_module_pcm_inferno.so"@);
    if let Some(dir) = d {
        assert(dir + "/"@ + "statime"@ =~= dir + "/statime"@);
        assert(dir + "/"@ + "libasound_module_pcm_inferno.so"@ =~= dir
            + "/libasound_module_pcm_inferno.so"@);
    }
}

/// A stored configuration is loaded as it is, whatever the machine; without one the machine's
/// initial configuration is.
pub proof fn stored_configuration_wins(
    stored: ConfigView,
    d: Option<Seq<char>>,
    h: Option<Seq<char>>,
)
    ensures
        ConfigView::loaded(Some(stored), d, h) == stored,
        ConfigView::loaded(None, d, h) == ConfigView::initial(d, h),
{
}

/// The configuration is stored in the directory that the environment names for it, wherever
/// home is; without one in that below home, and without home in that below the current
/// directory.
pub proof fn configuration_is_found(dir: Seq<char>, home: Option<Seq<char>>)
    ensures
        config_file(Some(dir), home) == config_file(Some(dir), None),
        dir.len() > 0 && dir.last() != '/' ==> config_file(Some(dir), home) == dir
            + "/idvs/config.json"@,
        dir.len() > 0 && dir.last() == '/' ==> config_file(Some(dir), home) == dir
            + "idvs/config.json"@,
        home matches Some(h) ==> (h.len() > 0 && h.last() != '/' ==> config_file(None, home) == h
            + "/.config/idvs/config.json"@),
        home matches Some(h) ==> (h.len() > 0 && h.last() == '/' ==> config_file(None, home) == h
            + ".config/idvs/config.json"@),
        config_file(None, None) == "./.config/idvs/config.json"@,
{
    reveal_strlit("/");
    reveal_strlit(".");
    reveal_strlit("idvs");
    reveal_strlit("config.json");
    reveal_strlit(".config");
    reveal_strlit("/idvs/config.json");
    reveal_strlit("idvs/config.json");
    reveal_strlit("/.config/idvs/config.json");
    reveal_strlit(".config/idvs/config.json");
    reveal_strlit("./.config/idvs/config.json");
    assert(dir + "/"@ + "idvs"@ + "/"@ + "config.json"@ =~= dir + "/idvs/config.json"@);
    assert(dir + "idvs"@ + "/"@ + "config.json"@ =~= dir + "idvs/config.json"@);
    if let Some(h) = home {
        assert(h + "/"@ + ".config"@ + "/"@ + "idvs"@ + "/"@ + "config.json"@ =~= h
            + "/.config/idvs/config.json"@);
        assert(h + ".config"@ + "/"@ + "idvs"@ + "/"@ + "config.json"@ =~= h
            + ".config/idvs/config.json"@);
    }
    assert("."@ + "/"@ + ".config"@ + "/"@ + "idvs"@ + "/"@ + "config.json"@
        =~= "./.config/idvs/config.json"@);
}

/// What ALSA is told of a configuration and an address stands in its text, right where it looks.
pub proof fn alsa_is_told(config: ConfigView, ip: Seq<char>)
    ensures
        text::stands_between(
            config.alsa_text(ip),
            "\n    CLOCK_PATH \""@,
            config.clock_path,
            "\"\n"@,
        ),
        text::stands_between(config.alsa_text(ip), "\n    BIND_IP \""@, ip, "\"\n"@),
{
    let p = Seq::new(9, |i: int| alsa_part(i));
    lemma_alsa_parts();
    let rate = text::decimal(config.sample_rate as nat);
    let tx = text::decimal(config.tx_channels as nat);
    let rx = text::decimal(config.rx_channels as nat);
    let latency = text::decimal(config.latency_ns as nat);
    let t = config.alsa_text(ip);
    assert(t == p[0] + config.device_name + p[1] + ip + p[2] + rate + p[3] + tx + p[4] + rx + p[5]
        + config.clock_path + p[6] + latency + p[7] + latency + p[8]);
    let before_ip = p[0] + config.device_name + p[1];
    let after_ip = p[2] + rate + p[3] + tx + p[4] + rx + p[5] + config.clock_path + p[6] + latency
        + p[7] + latency + p[8];
    let before_clock = before_ip + ip + p[2] + rate + p[3] + tx + p[4] + rx + p[5];
    let after_clock = p[6] + latency + p[7] + latency + p[8];
    assert(t =~= before_ip + ip + after_ip);
    assert(t =~= before_clock + config.clock_path + after_clock);
    let h = "\n    BIND_IP \""@.len();
    let k = "\n    CLOCK_PATH \""@.len();
    assert(before_ip.skip(before_ip.len() - h) =~= p[1].skip(p[1].len() - h));
    assert(before_clock.skip(before_clock.len() - k) =~= p[5].skip(p[5].len() - k));
    assert(after_ip.take("\"\n"@.len() as int) =~= p[2].take("\"\n"@.len() as int));
    assert(after_clock.take("\"\n"@.len() as int) =~= p[6].take("\"\n"@.len() as int));
    text::stands_between_ends(before_ip, ip, after_ip, "\n    BIND_IP \""@, "\"\n"@);
    text::stands_between_ends(
        before_clock,
        config.clock_path,
        after_clock,
        "\n    CLOCK_PATH \""@,
        "\"\n"@,
    );
}

proof fn lemma_alsa_parts()
    ensures
        text::ends_with(alsa_part(1), "\n    BIND_IP \""@),
        text::begins_with(alsa_part(2), "\"\n"@),
        text::ends_with(alsa_part(5), "\n    CLOCK_PATH \""@),
        text::begins_with(alsa_part(6), "\"\n"@),
{
    reveal_strlit(
        r#""
    BIND_IP ""#,
    );
    reveal_strlit(
        r#""
    SAMPLE_RATE "#,
    );
    reveal_strlit(
        r#"
    CLOCK_PATH ""#,
    );
    reveal_strlit(
        r#""
    TX_LATENCY_NS "#,
    );
    reveal_strlit("\n    BIND_IP \"");
    reveal_strlit("\n    CLOCK_PATH \"");
    reveal_strlit("\"\n");
    let ip = "\n    BIND_IP \""@;
    let clock = "\n    CLOCK_PATH \""@;
    assert(alsa_part(1).skip(alsa_part(1).len() - ip.len()) =~= ip);
    assert(alsa_part(2).take("\"\n"@.len() as int) =~= "\"\n"@);
    assert(alsa_part(5).skip(alsa_part(5).len() - clock.len()) =~= clock);
    assert(alsa_part(6).take("\"\n"@.len() as int) =~= "\"\n"@);
}

} // verus!
