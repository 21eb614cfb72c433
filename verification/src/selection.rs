//! The operator's choice of what to connect to, and the settings record
//! that outlives a run.

use crate::text::owned;
use crate::transport::{
    connect_request, connect_request_for, ConnectRequest, TransportKind, SERIAL_BAUD_RATE,
};
use vstd::prelude::*;
use vstd::string::*;

verus! {

/// The names in `ports`, as mathematical strings.
pub open spec fn names_of(ports: Seq<String>) -> Seq<Seq<char>> {
    Seq::new(ports.len(), |i: int| ports[i]@)
}

/// The mathematical value of a `TargetSelection`.
pub struct SelectionState {
    /// The kind of transport that a connect action opens.
    pub mode: TransportKind,
    /// The serial device that was chosen; empty while none was.
    pub selected_port: Seq<char>,
    /// The serial devices that the last listing found.
    pub available_ports: Seq<Seq<char>>,
    /// The `host:port` address of the network target.
    pub network_address: Seq<char>,
}

impl SelectionState {
    /// The selection a run starts with: the network target `127.0.0.1:1234`,
    /// and no serial device known or chosen.
    pub open spec fn initial() -> SelectionState {
        SelectionState {
            mode: TransportKind::Network,
            selected_port: Seq::empty(),
            available_ports: Seq::empty(),
            network_address: "127.0.0.1:1234"@,
        }
    }

    /// The target of the mode that is chosen: the serial device or the
    /// network address.
    pub open spec fn target(self) -> Seq<char> {
        match self.mode {
            TransportKind::Serial => self.selected_port,
            TransportKind::Network => self.network_address,
        }
    }

    /// The selection after a listing found `names`: they are the available
    /// ports, and the first of them, if there is one, is chosen.
    pub open spec fn listed(self, names: Seq<Seq<char>>) -> SelectionState {
        SelectionState {
            available_ports: names,
            selected_port: if names.len() > 0 {
                names[0]
            } else {
                self.selected_port
            },
            ..self
        }
    }
}

/// What the operator has chosen to connect to.
#[derive(Debug)]
pub struct TargetSelection {
    mode: TransportKind,
    selected_port: String,
    available_ports: Vec<String>,
    network_address: String,
}

impl View for TargetSelection {
    type V = SelectionState;

    closed spec fn view(&self) -> SelectionState {
        SelectionState {
            mode: self.mode,
            selected_port: self.selected_port@,
            available_ports: names_of(self.available_ports@),
            network_address: self.network_address@,
        }
    }
}

impl TargetSelection {
    /// The selection a run starts with.
    pub fn new() -> (selection: TargetSelection)
        ensures
            selection@ == SelectionState::initial(),
    {
        let selection = TargetSelection {
            mode: TransportKind::Network,
            selected_port: String::new(),
            available_ports: Vec::new(),
            network_address: owned("127.0.0.1:1234"),
        };
        assert(names_of(selection.available_ports@) =~= Seq::<Seq<char>>::empty());
        selection
    }

    /// The kind of transport that a connect action opens.
    pub fn mode(&self) -> (mode: TransportKind)
        ensures
            mode == self@.mode,
    {
        self.mode
    }

    /// The serial device that was chosen.
    pub fn selected_port(&self) -> (name: &str)
        ensures
            name@ == self@.selected_port,
    {
        self.selected_port.as_str()
    }

    /// The address of the network target.
    pub fn network_address(&self) -> (address: &str)
        ensures
            address@ == self@.network_address,
    {
        self.network_address.as_str()
    }

    /// The number of serial devices that the last listing found.
    pub fn port_count(&self) -> (count: usize)
        ensures
            count == self@.available_ports.len(),
    {
        self.available_ports.len()
    }

    /// The name of the `index`-th serial device of the last listing, or
    /// `None` where there are not that many.
    pub fn port_name(&self, index: usize) -> (name: Option<&str>)
        ensures
            index < self@.available_ports.len() ==> (name matches Some(text) && text@
                == self@.available_ports[index as int]),
            index >= self@.available_ports.len() ==> name is None,
    {
        if index < self.available_ports.len() {
            Some(self.available_ports[index].as_str())
        } else {
            None
        }
    }

    /// Chooses the kind of transport.
    pub fn set_mode(&mut self, mode: TransportKind)
        ensures
            final(self)@ == (SelectionState { mode, ..old(self)@ }),
    {
        self.mode = mode;
    }

    /// Chooses the serial device.
    pub fn select_port(&mut self, name: String)
        ensures
            final(self)@ == (SelectionState { selected_port: name@, ..old(self)@ }),
    {
        self.selected_port = name;
    }

    /// Takes the address of the network target.
    pub fn set_network_address(&mut self, address: String)
        ensures
            final(self)@ == (SelectionState { network_address: address@, ..old(self)@ }),
    {
        self.network_address = address;
    }

    /// Takes the result of a listing of the serial devices: `names` are the
    /// available ports from now on, and the first of them is chosen. With an
    /// empty listing the chosen device stays.
    pub fn apply_port_listing(&mut self, names: Vec<String>)
        ensures
            final(self)@ == old(self)@.listed(names_of(names@)),
    {
        if names.len() > 0 {
            self.selected_port = names[0].clone();
        }
        self.available_ports = names;
    }

    /// The target of the chosen mode.
    pub fn target(&self) -> (target: &str)
        ensures
            target@ == self@.target(),
    {
        match self.mode {
            TransportKind::Serial => self.selected_port.as_str(),
            TransportKind::Network => self.network_address.as_str(),
        }
    }

    /// The request that opens what is chosen.
    pub fn connect_request(&self) -> (request: ConnectRequest)
        ensures
            request@ == connect_request_for(self@.mode, self@.target()),
    {
        connect_request(self.mode, self.target())
    }
}

/// The mathematical value of a `Settings` record.
pub struct SettingsView {
    pub serial_port_name: Seq<char>,
    pub baud_rate: u32,
    pub log_directory: Seq<char>,
}

/// The record that is kept between runs.
#[derive(Clone, Debug, PartialEq, Eq)]
pub struct Settings {
    pub serial_port_name: String,
    pub baud_rate: u32,
    pub log_directory: String,
}

impl View for Settings {
    type V = SettingsView;

    open spec fn view(&self) -> SettingsView {
        SettingsView {
            serial_port_name: self.serial_port_name@,
            baud_rate: self.baud_rate,
            log_directory: self.log_directory@,
        }
    }
}

impl SettingsView {
    /// The settings that apply where none were kept.
    pub open spec fn initial() -> SettingsView {
        SettingsView {
            serial_port_name: "COM3"@,
            baud_rate: SERIAL_BAUD_RATE,
            log_directory: "C:/jmOS_logs"@,
        }
    }
}

impl Settings {
    /// The settings that apply where none were kept.
    pub fn initial() -> (settings: Settings)
        ensures
            settings@ == SettingsView::initial(),
    {
        Settings {
            serial_port_name: owned("COM3"),
            baud_rate: SERIAL_BAUD_RATE,
            log_directory: owned("C:/jmOS_logs"),
        }
    }

    /// These settings with the log directory that a session ended with.
    pub fn with_log_directory(self, log_directory: &str) -> (settings: Settings)
        ensures
            settings@ == (SettingsView { log_directory: log_directory@, ..self@ }),
    {
        Settings {
            serial_port_name: self.serial_port_name,
            baud_rate: self.baud_rate,
            log_directory: owned(log_directory),
        }
    }
}

} // verus!
