//! Launching the peer process, reduced to what can be decided ahead of
//! time: given a listen address and the launch options, the command-line
//! arguments that will make the peer accept connections there. Locating
//! the game, spawning and supervising the process stay with the caller.

use crate::msg::strs_view;
use crate::session::{dec_str, u32_dec_string};
use vstd::prelude::*;
use vstd::string::StringExecFns;

verus! {

/// The rendering library to point the peer at (its path), on systems
/// that need one.
#[derive(Debug, Clone, PartialEq, Eq, Hash)]
pub enum RenderingLib {
    /// Path to an EGL library.
    Egl(String),
    /// Path to an OSMesa library.
    OsMesa(String),
}

/// The peer's window mode.
#[derive(Debug, Default, Clone, Copy, PartialEq, Eq, Hash, Structural)]
pub enum DisplayMode {
    Windowed,
    #[default]
    FullScreen,
}

/// What to do with the peer process when its handle is dropped.
#[derive(Debug, Default, Clone, Copy, PartialEq, Eq, Hash, Structural)]
pub enum OnDrop {
    #[default]
    Keep,
    Wait,
    Kill,
}

/// The launch options that decide the peer's command line.
#[derive(Debug, Clone, PartialEq, Eq, Hash)]
pub struct Launcher {
    /// The IP the API server will listen on, in its textual form.
    pub ip: String,
    /// The port the API server will listen on.
    pub port: u16,
    /// Log all protocol traffic to the peer's standard error.
    pub verbose: bool,
    /// Rendering library override.
    pub rendering_lib: Option<RenderingLib>,
    /// Window mode.
    pub display_mode: DisplayMode,
    /// Behaviour when the handle is dropped.
    pub on_drop: OnDrop,
}

/// The argument list the options stand for, in order: the listen
/// address, then each option that is switched on.
pub open spec fn spec_args(l: Launcher) -> Seq<Seq<char>> {
    seq!["-listen"@, l.ip@, "-port"@, dec_str(l.port as nat)] + (if l.verbose {
        seq!["-verbose"@]
    } else {
        Seq::empty()
    }) + (if l.display_mode is Windowed {
        seq!["-displayMode"@, "0"@]
    } else {
        Seq::empty()
    }) + (match l.rendering_lib {
        Some(RenderingLib::Egl(p)) => seq!["-eglpath"@, p@],
        Some(RenderingLib::OsMesa(p)) => seq!["-osmesapath"@, p@],
        None => Seq::empty(),
    })
}

impl Launcher {
    /// Options for a peer listening at the given address, everything
    /// else switched off.
    pub fn new(ip: String, port: u16) -> (r: Launcher)
        ensures
            r.ip == ip,
            r.port == port,
            !r.verbose,
            r.rendering_lib is None,
            r.display_mode is FullScreen,
            r.on_drop is Keep,
    {
        Launcher {
            ip,
            port,
            verbose: false,
            rendering_lib: None,
            display_mode: DisplayMode::FullScreen,
            on_drop: OnDrop::Keep,
        }
    }

    /// The command-line arguments these options stand for.
    pub fn args(&self) -> (v: Vec<String>)
        ensures
            strs_view(v@) == spec_args(*self),
    {
        let mut v: Vec<String> = Vec::new();
        v.push(String::from_str("-listen"));
        v.push(self.ip.clone());
        v.push(String::from_str("-port"));
        v.push(u32_dec_string(self.port as u32));
        if self.verbose {
            v.push(String::from_str("-verbose"));
        }
        match self.display_mode {
            DisplayMode::Windowed => {
                v.push(String::from_str("-displayMode"));
                v.push(String::from_str("0"));
            },
            DisplayMode::FullScreen => {},
        }
        match &self.rendering_lib {
            None => {},
            Some(RenderingLib::Egl(p)) => {
                v.push(String::from_str("-eglpath"));
                v.push(p.clone());
            },
            Some(RenderingLib::OsMesa(p)) => {
                v.push(String::from_str("-osmesapath"));
                v.push(p.clone());
            },
        }
        proof {
            assert(strs_view(v@) =~= spec_args(*self));
        }
        v
    }
}

} // verus!
