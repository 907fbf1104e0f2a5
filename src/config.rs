//! Printer settings and the command dialect.
use vstd::prelude::*;

verus! {

/// The two command languages of the supported label printers.
#[derive(Clone, Copy, Debug, PartialEq, Eq, Structural)]
pub enum Dialect {
    /// The stream that the spooler path sends: buffer clear, orientation and
    /// feed setup, then the fields.
    Ppla,
    /// The stream that the direct USB path sends: buffer clear, then height,
    /// width, speed and darkness setters, then the fields.
    Pplb,
}

/// Settings of the label printer. Widths and heights are in print dots
/// (8 dots to the millimetre).
#[derive(Clone, Debug)]
pub struct PrinterConfig {
    /// Print density, 1 to 15.
    pub darkness: u8,
    /// Width of the media in dots.
    pub width: u32,
    /// Height of one label in dots.
    pub height: u32,
    /// Feed speed, 1 to 4.
    pub speed: u8,
    /// The port or transport the printer sits on.
    pub port: String,
    /// The spooler printer chosen by the user, if any.
    pub selected_printer: Option<String>,
}

/// Darkness and speed lie in the ranges that the printers accept.
pub open spec fn config_in_range(c: PrinterConfig) -> bool {
    1 <= c.darkness <= 15 && 1 <= c.speed <= 4
}

impl Default for PrinterConfig {
    /// Medium darkness and speed, three 33 mm labels side by side on 105 mm
    /// media, 22 mm high, sent through the spooler.
    fn default() -> (r: PrinterConfig)
        ensures
            r.darkness == 8,
            r.width == 840,
            r.height == 176,
            r.speed == 2,
            r.port@ == "Windows"@,
            r.selected_printer is None,
    {
        PrinterConfig {
            darkness: 8,
            width: 840,
            height: 176,
            speed: 2,
            port: "Windows".to_owned(),
            selected_printer: None,
        }
    }
}

} // verus!
