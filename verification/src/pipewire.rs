//! The PipeWire nodes behind which the ALSA device stands.

use crate::config::{Config, ConfigView};
use crate::text;
use vstd::prelude::*;
use vstd::string::*;

verus! {

/// The directory of PipeWire's own configuration fragments below a home directory.
pub open spec fn conf_dir(home: Seq<char>) -> Seq<char> {
    home + "/.config/pipewire/pipewire.conf.d"@
}

/// The fragment that creates the nodes, below a home directory.
pub open spec fn conf_file(home: Seq<char>) -> Seq<char> {
    home + "/.config/pipewire/pipewire.conf.d/idvs-dante.conf"@
}

/// The directory of overrides of the PipeWire service below a home directory.
pub open spec fn override_dir(home: Seq<char>) -> Seq<char> {
    home + "/.config/systemd/user/pipewire.service.d"@
}

/// The override that lets PipeWire set clocks, below a home directory.
pub open spec fn override_file(home: Seq<char>) -> Seq<char> {
    override_dir(home) + "/override.conf"@
}

/// The configuration of a playback and a capture node backed by the ALSA device "dante".
pub open spec fn nodes_text(config: ConfigView) -> Seq<char> {
    r#"context.objects = [
  { factory = adapter
    args = {
      factory.name                    = api.alsa.pcm.sink
      node.name                       = ""#@ + config.device_name + r#"-sink"
      node.description                = ""#@ + config.device_name + r#" (Dante Playback)"
      media.class                     = Audio/Sink
      api.alsa.path                   = dante
      api.alsa.headroom               = 0
      audio.channels                  = "#@ + text::decimal(config.tx_channels as nat) + r#"
      audio.rate                      = "#@ + text::decimal(config.sample_rate as nat) + r#"
      object.linger                   = true
      node.always-process             = true
      session.suspend-timeout-seconds = 0
    }
  }
  { factory = adapter
    args = {
      factory.name                    = api.alsa.pcm.source
      node.name                       = ""#@ + config.device_name + r#"-source"
      node.description                = ""#@ + config.device_name + r#" (Dante Capture)"
      media.class                     = Audio/Source
      api.alsa.path                   = dante
      api.alsa.headroom               = 0
      audio.channels                  = "#@ + text::decimal(config.rx_channels as nat) + r#"
      audio.rate                      = "#@ + text::decimal(config.sample_rate as nat) + r#"
      object.linger                   = true
      node.always-process             = true
      session.suspend-timeout-seconds = 0
    }
  }
]
"#@
}

/// The path of the directory of configuration fragments.
pub fn pipewire_conf_dir(home: &str) -> (r: String)
    ensures
        r@ == conf_dir(home@),
{
    home.to_owned().concat("/.config/pipewire/pipewire.conf.d")
}

/// The path of the fragment that creates the nodes.
pub fn pipewire_dante_conf_path(home: &str) -> (r: String)
    ensures
        r@ == conf_file(home@),
{
    home.to_owned().concat("/.config/pipewire/pipewire.conf.d/idvs-dante.conf")
}

/// The path of the directory of overrides of the PipeWire service.
pub fn pipewire_override_dir(home: &str) -> (r: String)
    ensures
        r@ == override_dir(home@),
{
    home.to_owned().concat("/.config/systemd/user/pipewire.service.d")
}

/// The path of the override that lets PipeWire set clocks.
pub fn pipewire_override_path(home: &str) -> (r: String)
    ensures
        r@ == override_file(home@),
{
    pipewire_override_dir(home).concat("/override.conf")
}

/// Generate PipeWire config that creates persistent sink + source nodes backed
/// by the 'dante' ALSA device.  node.always-process=true keeps the ALSA
/// device open at all times, which is what keeps the Dante device on the
/// network even when no app is actively playing/recording.
pub fn pipewire_dante_config(config: &Config) -> (r: String)
    ensures
        r@ == nodes_text(config@),
{
    let rate = text::decimal_text(config.sample_rate);
    r#"context.objects = [
  { factory = adapter
    args = {
      factory.name                    = api.alsa.pcm.sink
      node.name                       = ""#.to_owned().concat(config.device_name.as_str()).concat(
            r#"-sink"
      node.description                = ""#,
        ).concat(config.device_name.as_str()).concat(
            r#" (Dante Playback)"
      media.class                     = Audio/Sink
      api.alsa.path                   = dante
      api.alsa.headroom               = 0
      audio.channels                  = "#,
        ).concat(text::decimal_text(config.tx_channels).as_str()).concat(
            r#"
      audio.rate                      = "#,
        ).concat(rate.as_str()).concat(
            r#"
      object.linger                   = true
      node.always-process             = true
      session.suspend-timeout-seconds = 0
    }
  }
  { factory = adapter
    args = {
      factory.name                    = api.alsa.pcm.source
      node.name                       = ""#,
        ).concat(config.device_name.as_str()).concat(
            r#"-source"
      node.description                = ""#,
        ).concat(config.device_name.as_str()).concat(
            r#" (Dante Capture)"
      media.class                     = Audio/Source
      api.alsa.path                   = dante
      api.alsa.headroom               = 0
      audio.channels                  = "#,
        ).concat(text::decimal_text(config.rx_channels).as_str()).concat(
            r#"
      audio.rate                      = "#,
        ).concat(rate.as_str()).concat(
            r#"
      object.linger                   = true
      node.always-process             = true
      session.suspend-timeout-seconds = 0
    }
  }
]
"#,
        )
}

/// The fixed parts of the configuration of the nodes, in turn.
spec fn nodes_part(i: int) -> Seq<char> {
    if i == 0 {
        r#"context.objects = [
  { factory = adapter
    args = {
      factory.name                    = api.alsa.pcm.sink
      node.name                       = ""#@
    } else if i == 1 {
        r#"-sink"
      node.description                = ""#@
    } else if i == 2 {
        r#" (Dante Playback)"
      media.class                     = Audio/Sink
      api.alsa.path                   = dante
      api.alsa.headroom               = 0
      audio.channels                  = "#@
    } else if i == 3 {
        r#"
      audio.rate                      = "#@
    } else if i == 4 {
        r#"
      object.linger                   = true
      node.always-process             = true
      session.suspend-timeout-seconds = 0
    }
  }
  { factory = adapter
    args = {
      factory.name                    = api.alsa.pcm.source
      node.name                       = ""#@
    } else if i == 5 {
        r#"-source"
      node.description                = ""#@
    } else if i == 6 {
        r#" (Dante Capture)"
      media.class                     = Audio/Source
      api.alsa.path                   = dante
      api.alsa.headroom               = 0
      audio.channels                  = "#@
    } else if i == 7 {
        r#"
      audio.rate                      = "#@
    } else {
        r#"
      object.linger                   = true
      node.always-process             = true
      session.suspend-timeout-seconds = 0
    }
  }
]
"#@
    }
}

/// The configuration of the PipeWire nodes is one fixed text, the same for every configuration,
/// in which the playback node is named after the device and has the channels that are sent, and
/// the capture node is named after it and has those that are received, both at the configured
/// rate.
pub proof fn nodes_read_their_settings()
    ensures
        exists|p: Seq<Seq<char>>| #[trigger] nodes_frame(p) && nodes_frame_gaps(p),
{
    reveal_strlit(r#"context.objects = [
  { factory = adapter
    args = {
      factory.name                    = api.alsa.pcm.sink
      node.name                       = ""#);
    reveal_strlit(r#"-sink"
      node.description                = ""#);
    reveal_strlit(r#" (Dante Playback)"
      media.class                     = Audio/Sink
      api.alsa.path                   = dante
      api.alsa.headroom               = 0
      audio.channels                  = "#);
    reveal_strlit(r#"
      audio.rate                      = "#);
    reveal_strlit(r#"
      object.linger                   = true
      node.always-process             = true
      session.suspend-timeout-seconds = 0
    }
  }
  { factory = adapter
    args = {
      factory.name                    = api.alsa.pcm.source
      node.name                       = ""#);
    reveal_strlit(r#"-source"
      node.description                = ""#);
    reveal_strlit(r#" (Dante Capture)"
      media.class                     = Audio/Source
      api.alsa.path                   = dante
      api.alsa.headroom               = 0
      audio.channels                  = "#);
    reveal_strlit(r#"
      audio.rate                      = "#);
    reveal_strlit(r#"
      object.linger                   = true
      node.always-process             = true
      session.suspend-timeout-seconds = 0
    }
  }
]
"#);
    reveal_strlit(" (Dante Capture)\"\n      media.class                     = Audio/Source\n");
    reveal_strlit(" (Dante Playback)\"\n      media.class                     = Audio/Sink\n");
    reveal_strlit("-sink\"\n");
    reveal_strlit("-source\"\n");
    reveal_strlit("\n      audio.channels                  = ");
    reveal_strlit("\n      audio.rate                      = ");
    reveal_strlit("\n      node.description                = \"");
    reveal_strlit("\n");
    reveal_strlit("api.alsa.pcm.sink\n      node.name                       = \"");
    reveal_strlit("api.alsa.pcm.source\n      node.name                       = \"");
    let p = Seq::new(9, |i: int| nodes_part(i));
    text::gap_by_characters(p, 0, "api.alsa.pcm.sink\n      node.name                       = \""@, "-sink\"\n"@);
    text::gap_by_characters(p, 1, "\n      node.description                = \""@, " (Dante Playback)\"\n      media.class                     = Audio/Sink\n"@);
    text::gap_by_characters(p, 2, "\n      audio.channels                  = "@, "\n"@);
    text::gap_by_characters(p, 3, "\n      audio.rate                      = "@, "\n"@);
    text::gap_by_characters(p, 4, "api.alsa.pcm.source\n      node.name                       = \""@, "-source\"\n"@);
    text::gap_by_characters(p, 5, "\n      node.description                = \""@, " (Dante Capture)\"\n      media.class                     = Audio/Source\n"@);
    text::gap_by_characters(p, 6, "\n      audio.channels                  = "@, "\n"@);
    text::gap_by_characters(p, 7, "\n      audio.rate                      = "@, "\n"@);
    assert(nodes_frame(p));
}

/// Where the values stand between these texts.
pub open spec fn nodes_frame_gaps(p: Seq<Seq<char>>) -> bool {
    &&& text::gap(p, 0, "api.alsa.pcm.sink\n      node.name                       = \""@, "-sink\"\n"@)
    &&& text::gap(p, 1, "\n      node.description                = \""@, " (Dante Playback)\"\n      media.class                     = Audio/Sink\n"@)
    &&& text::gap(p, 2, "\n      audio.channels                  = "@, "\n"@)
    &&& text::gap(p, 3, "\n      audio.rate                      = "@, "\n"@)
    &&& text::gap(p, 4, "api.alsa.pcm.source\n      node.name                       = \""@, "-source\"\n"@)
    &&& text::gap(p, 5, "\n      node.description                = \""@, " (Dante Capture)\"\n      media.class                     = Audio/Source\n"@)
    &&& text::gap(p, 6, "\n      audio.channels                  = "@, "\n"@)
    &&& text::gap(p, 7, "\n      audio.rate                      = "@, "\n"@)
}

/// Whether every configuration of the nodes consists of these texts, with the configured values
/// between them.
pub open spec fn nodes_frame(p: Seq<Seq<char>>) -> bool {
    p.len() == 9 && forall|config: ConfigView| #[trigger]
        nodes_text(config) == p[0] + config.device_name + p[1] + config.device_name + p[2]
            + text::decimal(config.tx_channels as nat) + p[3] + text::decimal(
            config.sample_rate as nat,
        ) + p[4] + config.device_name + p[5] + config.device_name + p[6] + text::decimal(
            config.rx_channels as nat,
        ) + p[7] + text::decimal(config.sample_rate as nat) + p[8]
}

/// The files lie below the home directory, always at the same place there: the nodes' in the
/// directory of fragments, and the override in the directory of overrides.
pub proof fn files_lie_below_home(home: Seq<char>)
    ensures
        conf_dir(home) == home + "/.config/pipewire/pipewire.conf.d"@,
        conf_file(home) == conf_dir(home) + "/idvs-dante.conf"@,
        override_dir(home) == home + "/.config/systemd/user/pipewire.service.d"@,
        override_file(home) == override_dir(home) + "/override.conf"@,
{
    reveal_strlit("/.config/pipewire/pipewire.conf.d");
    reveal_strlit("/idvs-dante.conf");
    reveal_strlit("/.config/pipewire/pipewire.conf.d/idvs-dante.conf");
    assert("/.config/pipewire/pipewire.conf.d/idvs-dante.conf"@
        =~= "/.config/pipewire/pipewire.conf.d"@ + "/idvs-dante.conf"@);
    assert(conf_file(home) =~= conf_dir(home) + "/idvs-dante.conf"@);
}

} // verus!
