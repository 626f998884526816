//! The configuration-file shape, and the resolution of its optional fields
//! into one complete per-bar configuration each. Reading and decoding the
//! file itself is the surrounding program's business; this module takes the
//! decoded plain values.

use vstd::prelude::*;
use vstd::string::StringExecFns;

use crate::bar::{Color, Position};

verus! {

/// The decoded configuration file: an optional shared title, shared
/// optional colors, and one entry per bar, in file order.
#[derive(Debug, Clone, PartialEq)]
pub struct Config {
    pub title: Option<String>,
    pub colors: ConfigColors,
    pub bar: Vec<ConfigBar>,
}

/// The configuration file's color section; every field may be left out.
#[derive(Debug, Clone, Copy, PartialEq, Eq, Structural)]
pub struct ConfigColors {
    pub background: Option<Color>,
    pub text: Option<Color>,
    pub text_secondary: Option<Color>,
}

/// One bar's entry in the configuration file.
#[derive(Debug, Clone, Copy, PartialEq, Eq, Structural)]
pub struct ConfigBar {
    pub monitor: usize,
    pub position: Position,
    pub size: u16,
}

/// An optional color, or the given default.
pub open spec fn color_or(c: Option<Color>, default: Color) -> Color {
    match c {
        Some(c) => c,
        None => default,
    }
}

/// The title every bar carries: the configured one, or the program's name.
pub open spec fn title_or_default(title: Option<String>) -> Seq<char> {
    match title {
        Some(t) => t@,
        None => "pagbar"@,
    }
}

/// Turn the decoded configuration file into one complete configuration per
/// bar, in file order: the shared title and colors are copied into every
/// bar, and each left-out value falls back to its default — black
/// background, white text, grey secondary text.
pub fn resolve_options(config: &Config) -> (v: Vec<crate::bar::Config>)
    ensures
        v@.len() == config.bar@.len(),
        forall|i: int|
            0 <= i < v@.len() ==> {
                let b = config.bar@[i];
                let r = #[trigger] v@[i];
                &&& r.monitor == b.monitor
                &&& r.position == b.position
                &&& r.size == b.size
                &&& r.title@ == title_or_default(config.title)
                &&& r.background == color_or(config.colors.background, Color { r: 0, g: 0, b: 0 })
                &&& r.text == color_or(config.colors.text, Color { r: 255, g: 255, b: 255 })
                &&& r.text_secondary == color_or(
                    config.colors.text_secondary,
                    Color { r: 150, g: 150, b: 150 },
                )
            },
{
    let mut v: Vec<crate::bar::Config> = Vec::new();
    let n = config.bar.len();
    let mut i: usize = 0;
    #[verifier::loop_isolation(false)]
    while i < n
        invariant
            i <= n,
            v@.len() == i,
            forall|j: int|
                0 <= j < i ==> {
                    let b = config.bar@[j];
                    let r = #[trigger] v@[j];
                    &&& r.monitor == b.monitor
                    &&& r.position == b.position
                    &&& r.size == b.size
                    &&& r.title@ == title_or_default(config.title)
                    &&& r.background == color_or(
                        config.colors.background,
                        Color { r: 0, g: 0, b: 0 },
                    )
                    &&& r.text == color_or(config.colors.text, Color { r: 255, g: 255, b: 255 })
                    &&& r.text_secondary == color_or(
                        config.colors.text_secondary,
                        Color { r: 150, g: 150, b: 150 },
                    )
                },
        decreases n - i,
    {
        let bar = config.bar[i];
        let title = match &config.title {
            Some(t) => t.clone(),
            None => String::from_str("pagbar"),
        };
        let background = match config.colors.background {
            Some(c) => c,
            None => Color { r: 0, g: 0, b: 0 },
        };
        let text = match config.colors.text {
            Some(c) => c,
            None => Color { r: 255, g: 255, b: 255 },
        };
        let text_secondary = match config.colors.text_secondary {
            Some(c) => c,
            None => Color { r: 150, g: 150, b: 150 },
        };
        v.push(
            crate::bar::Config {
                monitor: bar.monitor,
                title,
                position: bar.position,
                size: bar.size,
                background,
                text,
                text_secondary,
            },
        );
        i = i + 1;
    }
    v
}

} // verus!
