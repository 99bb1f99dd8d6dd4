//! The options a run is configured with, as plain values. The host reads
//! them from the command line or from a configuration file.
use vstd::prelude::*;
use crate::logging::{decimal_digits, decimal_text};

verus! {

/// Information needed to read a configuration file.
#[derive(Clone, Debug)]
pub struct ConfigurationFileReadInfo {
    /// Path to a .toml configuration file.
    pub config_path: String,
}

/// Information needed to write a configuration file.
#[derive(Clone, Debug)]
pub struct ConfigurationFileWriteInfo {
    /// Location to write the configuration file.
    pub config_path: String,
}

/// Options for setting up the LED strip driver.
#[derive(Clone, Copy, Debug)]
pub struct LEDControllerArgs {
    /// GPIO pin used to drive the matrix.
    pub gpio: u16,
    /// DMA channel used to drive the matrix.
    pub dma: u16,
    /// Signal rate of the LED controller, in Hz.
    pub frequency: u32,
}

/// Options for running plugins.
#[derive(Clone, Debug)]
pub struct PluginConfigurationArgs {
    /// The plugins to run, in order.
    pub plugin: Vec<String>,
    /// Longest time, in seconds, that one plugin may run; none by default.
    pub time_limit: Option<u64>,
    /// Run the sequence of plugins again and again.
    pub loop_plugins: bool,
    /// Network hosts that plugins may reach.
    pub allow_host: Option<Vec<String>>,
    /// Host paths mapped into the plugins' file system, each written
    /// `"SANDBOX_PATH>HOST_PATH"`.
    pub map_path: Option<Vec<String>>,
}

/// How a flag is written in a plugin setting.
pub open spec fn flag_text(b: bool) -> Seq<char> {
    if b {
        "true"@
    } else {
        "false"@
    }
}

/// The settings that a plugin can query by key, in this order: width,
/// height, target_fps, serpentine and brightness, each written as text.
/// `target_fps` comes already written.
pub open spec fn settings_of(width: usize, height: usize, target_fps: Seq<char>, serpentine: bool, brightness: u8) -> Seq<
    (Seq<char>, Seq<char>),
> {
    seq![
        ("width"@, decimal_digits(width as nat)),
        ("height"@, decimal_digits(height as nat)),
        ("target_fps"@, target_fps),
        ("serpentine"@, flag_text(serpentine)),
        ("brightness"@, decimal_digits(brightness as nat)),
    ]
}

/// The settings of a matrix that a plugin can query by key.
pub fn plugin_settings(width: usize, height: usize, target_fps: String, serpentine: bool, brightness: u8) -> (r: Vec<
    (String, String),
>)
    ensures
        r@.map_values(|kv: (String, String)| (kv.0@, kv.1@)) == settings_of(
            width,
            height,
            target_fps@,
            serpentine,
            brightness,
        ),
{
    let mut r: Vec<(String, String)> = Vec::new();
    r.push(("width".to_owned(), decimal_text(width as u64)));
    r.push(("height".to_owned(), decimal_text(height as u64)));
    r.push(("target_fps".to_owned(), target_fps));
    r.push(("serpentine".to_owned(), if serpentine { "true".to_owned() } else { "false".to_owned() }));
    r.push(("brightness".to_owned(), decimal_text(brightness as u64)));
    proof {
        assert(r@.map_values(|kv: (String, String)| (kv.0@, kv.1@)) =~= settings_of(
            width,
            height,
            target_fps@,
            serpentine,
            brightness,
        ));
    }
    r
}

} // verus!
