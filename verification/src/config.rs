//! How a process of the cluster is started: as the host, as the doctor's client with
//! its window, or as the analysis agent's client without one.

use crate::cluster::Role;
use vstd::prelude::*;
use vstd::string::*;

verus! {

/// The way a process runs.
#[derive(Debug, Clone)]
pub enum RunMode {
    /// The host that every client connects to.
    Host { port: u16, name: String, host: String },
    /// The doctor agent's client, with the chat window.
    Doctor { port: u16, host_addr: String, name: String, host: String },
    /// The analysis agent's client, without a window.
    Analysis { port: u16, host_addr: String, name: String, host: String },
}

/// A run mode as plain values.
pub enum RunModeView {
    Host { port: u16, name: Seq<char>, host: Seq<char> },
    Doctor { port: u16, host_addr: Seq<char>, name: Seq<char>, host: Seq<char> },
    Analysis { port: u16, host_addr: Seq<char>, name: Seq<char>, host: Seq<char> },
}

impl View for RunMode {
    type V = RunModeView;

    open spec fn view(&self) -> RunModeView {
        match self {
            RunMode::Host { port, name, host } => RunModeView::Host {
                port: *port,
                name: name@,
                host: host@,
            },
            RunMode::Doctor { port, host_addr, name, host } => RunModeView::Doctor {
                port: *port,
                host_addr: host_addr@,
                name: name@,
                host: host@,
            },
            RunMode::Analysis { port, host_addr, name, host } => RunModeView::Analysis {
                port: *port,
                host_addr: host_addr@,
                name: name@,
                host: host@,
            },
        }
    }
}

/// The part that a process in this mode plays in the cluster.
pub open spec fn role_of(mode: RunModeView) -> Role {
    match mode {
        RunModeView::Host { .. } => Role::Host,
        _ => Role::Client,
    }
}

impl RunMode {
    /// The host as it runs where nothing else is asked for.
    pub fn default_host() -> (mode: RunMode)
        ensures
            mode@ == (RunModeView::Host {
                port: 9000,
                name: "cluster_host"@,
                host: "localhost"@,
            }),
    {
        RunMode::Host {
            port: 9000,
            name: String::from_str("cluster_host"),
            host: String::from_str("localhost"),
        }
    }

    /// The doctor's client as it runs where nothing else is asked for.
    pub fn default_doctor() -> (mode: RunMode)
        ensures
            mode@ == (RunModeView::Doctor {
                port: 9001,
                host_addr: "localhost:9000"@,
                name: "doctor"@,
                host: "localhost"@,
            }),
    {
        RunMode::Doctor {
            port: 9001,
            host_addr: String::from_str("localhost:9000"),
            name: String::from_str("doctor"),
            host: String::from_str("localhost"),
        }
    }

    /// The analysis agent's client as it runs where nothing else is asked for.
    pub fn default_analysis() -> (mode: RunMode)
        ensures
            mode@ == (RunModeView::Analysis {
                port: 9002,
                host_addr: "localhost:9000"@,
                name: "analysis"@,
                host: "localhost"@,
            }),
    {
        RunMode::Analysis {
            port: 9002,
            host_addr: String::from_str("localhost:9000"),
            name: String::from_str("analysis"),
            host: String::from_str("localhost"),
        }
    }

    /// The part that the process plays in the cluster.
    pub fn role(&self) -> (role: Role)
        ensures
            role == role_of(self@),
    {
        match self {
            RunMode::Host { .. } => Role::Host,
            _ => Role::Client,
        }
    }

    /// Whether the process shows the chat window: only the doctor's client does.
    pub fn has_window(&self) -> (yes: bool)
        ensures
            yes == (self@ is Doctor),
    {
        match self {
            RunMode::Doctor { .. } => true,
            _ => false,
        }
    }

    /// The port the process listens on.
    pub fn port(&self) -> (port: u16)
        ensures
            port == match self@ {
                RunModeView::Host { port, .. } => port,
                RunModeView::Doctor { port, .. } => port,
                RunModeView::Analysis { port, .. } => port,
            },
    {
        match self {
            RunMode::Host { port, .. } => *port,
            RunMode::Doctor { port, .. } => *port,
            RunMode::Analysis { port, .. } => *port,
        }
    }
}

} // verus!
