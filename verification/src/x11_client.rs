//! What the windowing system says of one window, and how its answers make up
//! the window's metadata.

use crate::associations::WindowRecord;
use vstd::prelude::*;

verus! {

/// The bit of a client-identification request that asks for the process
/// identifier of a local client.
pub const LOCAL_CLIENT_PID_MASK: u32 = 0x02;

/// Why no client could be set up.
#[derive(Clone, Copy, Debug, PartialEq, Eq, Structural)]
pub enum ClientErrorType {
    Connection,
}

/// A failure to set up a client.
#[derive(Debug)]
pub struct ClientError {
    pub err_type: ClientErrorType,
}

impl ClientError {
    pub fn new(err: ClientErrorType) -> (r: Self)
        ensures
            r.err_type == err,
    {
        ClientError { err_type: err }
    }
}

/// Which part of a window's metadata could not be had.
#[derive(Clone, Copy, Debug, PartialEq, Eq, Structural)]
pub enum GatherInfoErrorType {
    /// The exchange for the window's desktop number failed: the window may be
    /// gone already.
    WindowDesktopNumber,
    /// The list of desktop names has no name for the window's desktop.
    DesktopName,
    /// The windowing system named no process for the window.
    ProcessId,
}

/// A failure to gather a window's metadata.
#[derive(Debug)]
pub struct GatherInfoError {
    pub err: GatherInfoErrorType,
}

impl GatherInfoError {
    pub fn new(err: GatherInfoErrorType) -> (r: Self)
        ensures
            r.err == err,
    {
        GatherInfoError { err }
    }
}

/// A window's metadata, as contracts see it.
pub struct WindowMetadata {
    pub window: u32,
    pub resource_id: u32,
    pub window_name: Seq<char>,
    pub desktop_number: u32,
    pub desktop_name: Seq<char>,
    pub process_id: u32,
}

impl WindowMetadata {
    /// The window record that this metadata gives.
    pub open spec fn record(self) -> WindowRecord {
        WindowRecord {
            window_name: self.window_name,
            window_xid: self.resource_id,
            desktop_name: self.desktop_name,
            desktop_number: self.desktop_number,
        }
    }
}

/// The metadata of one window: its handle and identifier, its name, the
/// desktop it is on, and the identifier of the process that owns it.
#[derive(Debug)]
pub struct X11WindowInformation {
    pub x11_window: u32,
    pub x11_resource_id: u32,
    pub x11_window_name: String,
    pub x11_desktop_number: u32,
    pub x11_desktop_name: String,
    pub process_id: u32,
}

impl View for X11WindowInformation {
    type V = WindowMetadata;

    open spec fn view(&self) -> WindowMetadata {
        WindowMetadata {
            window: self.x11_window,
            resource_id: self.x11_resource_id,
            window_name: self.x11_window_name@,
            desktop_number: self.x11_desktop_number,
            desktop_name: self.x11_desktop_name@,
            process_id: self.process_id,
        }
    }
}

impl X11WindowInformation {
    pub fn new(
        window: u32,
        resource_id: u32,
        name: String,
        desktop_number: u32,
        desktop_name: String,
        pid: u32,
    ) -> (r: Self)
        ensures
            r@ == (WindowMetadata {
                window,
                resource_id,
                window_name: name@,
                desktop_number,
                desktop_name: desktop_name@,
                process_id: pid,
            }),
    {
        X11WindowInformation {
            x11_window: window,
            x11_resource_id: resource_id,
            x11_window_name: name,
            x11_desktop_number: desktop_number,
            x11_desktop_name: desktop_name,
            process_id: pid,
        }
    }
}

/// The windowing system's answers to the four questions asked of one window,
/// as contracts see them.
pub struct Answers {
    pub window_name: Option<Seq<char>>,
    pub desktop_number: Option<u32>,
    pub desktop_names: Seq<Seq<char>>,
    pub client_ids: Seq<Seq<u32>>,
}

/// The windowing system's answers to the four questions asked of one window.
#[derive(Debug)]
pub struct WindowReplies {
    /// The window's name: `None` where it has none.
    pub window_name: Option<String>,
    /// The number of the window's desktop: `None` where the exchange failed.
    pub desktop_number: Option<u32>,
    /// The names of all desktops, by number.
    pub desktop_names: Vec<String>,
    /// The values of each client identifier that the windowing system named
    /// for the window when asked for the local process.
    pub client_ids: Vec<Vec<u32>>,
}

impl View for WindowReplies {
    type V = Answers;

    open spec fn view(&self) -> Answers {
        Answers {
            window_name: self.window_name.deep_view(),
            desktop_number: self.desktop_number,
            desktop_names: self.desktop_names.deep_view(),
            client_ids: self.client_ids.deep_view(),
        }
    }
}

impl Answers {
    /// The window's name: empty where it has none.
    pub open spec fn name(self) -> Seq<char> {
        match self.window_name {
            Some(name) => name,
            None => Seq::empty(),
        }
    }

    /// The name of desktop `number`, if the list of names reaches that far.
    pub open spec fn desktop_name(self, number: u32) -> Option<Seq<char>> {
        if number < self.desktop_names.len() {
            Some(self.desktop_names[number as int])
        } else {
            None
        }
    }

    /// The process that owns the window: the first value of the first client
    /// identifier, if there is one.
    pub open spec fn process_id(self) -> Option<u32> {
        if self.client_ids.len() > 0 && self.client_ids[0].len() > 0 {
            Some(self.client_ids[0][0])
        } else {
            None
        }
    }

    /// The metadata that the answers give for `window`, or what is missing:
    /// the desktop number is looked at first, then the desktop's name, then
    /// the owning process.
    pub open spec fn metadata(self, window: u32) -> Result<WindowMetadata, GatherInfoErrorType> {
        match self.desktop_number {
            None => Err(GatherInfoErrorType::WindowDesktopNumber),
            Some(number) => match self.desktop_name(number) {
                None => Err(GatherInfoErrorType::DesktopName),
                Some(desktop_name) => match self.process_id() {
                    None => Err(GatherInfoErrorType::ProcessId),
                    Some(pid) => Ok(
                        WindowMetadata {
                            window,
                            resource_id: window,
                            window_name: self.name(),
                            desktop_number: number,
                            desktop_name,
                            process_id: pid,
                        },
                    ),
                },
            },
        }
    }
}

impl WindowReplies {
    /// The window's name: empty where it has none.
    pub fn get_window_name(&self) -> (name: String)
        ensures
            name@ == self@.name(),
    {
        match &self.window_name {
            Some(name) => name.clone(),
            None => String::new(),
        }
    }

    /// The number of the window's desktop, where the exchange for it
    /// succeeded.
    pub fn get_desktop_number_of_window(&self) -> (r: Result<u32, GatherInfoError>)
        ensures
            match r {
                Ok(number) => self@.desktop_number == Some(number),
                Err(e) => self@.desktop_number.is_none() && e.err
                    == GatherInfoErrorType::WindowDesktopNumber,
            },
    {
        match self.desktop_number {
            Some(number) => Ok(number),
            None => Err(GatherInfoError::new(GatherInfoErrorType::WindowDesktopNumber)),
        }
    }

    /// The name of desktop `number`, where the list of names has one.
    pub fn get_desktop_name_of_window(&self, number: u32) -> (r: Result<String, GatherInfoError>)
        ensures
            match r {
                Ok(name) => self@.desktop_name(number) == Some(name@),
                Err(e) => self@.desktop_name(number).is_none() && e.err
                    == GatherInfoErrorType::DesktopName,
            },
    {
        let index: usize = number as usize;
        if index < self.desktop_names.len() {
            Ok(self.desktop_names[index].clone())
        } else {
            Err(GatherInfoError::new(GatherInfoErrorType::DesktopName))
        }
    }

    /// The identifier of the process that owns the window, where the
    /// windowing system named one.
    pub fn get_process_id_of_local_client(&self) -> (r: Result<u32, GatherInfoError>)
        ensures
            match r {
                Ok(pid) => self@.process_id() == Some(pid),
                Err(e) => self@.process_id().is_none() && e.err == GatherInfoErrorType::ProcessId,
            },
    {
        if self.client_ids.len() > 0 && self.client_ids[0].len() > 0 {
            Ok(self.client_ids[0][0])
        } else {
            Err(GatherInfoError::new(GatherInfoErrorType::ProcessId))
        }
    }

    /// The metadata of `window` that the answers give, or the first thing
    /// that is missing from them.
    pub fn get_window_information(&self, window: u32) -> (r: Result<
        X11WindowInformation,
        GatherInfoError,
    >)
        ensures
            match r {
                Ok(info) => self@.metadata(window) == Ok::<WindowMetadata, GatherInfoErrorType>(
                    info@,
                ),
                Err(e) => self@.metadata(window) == Err::<WindowMetadata, GatherInfoErrorType>(
                    e.err,
                ),
            },
    {
        let desktop_number = match self.get_desktop_number_of_window() {
            Ok(number) => number,
            Err(e) => {
                return Err(e);
            },
        };
        let desktop_name = match self.get_desktop_name_of_window(desktop_number) {
            Ok(name) => name,
            Err(e) => {
                return Err(e);
            },
        };
        let pid = match self.get_process_id_of_local_client() {
            Ok(pid) => pid,
            Err(e) => {
                return Err(e);
            },
        };
        Ok(
            X11WindowInformation::new(
                window,
                window,
                self.get_window_name(),
                desktop_number,
                desktop_name,
                pid,
            ),
        )
    }
}

} // verus!
