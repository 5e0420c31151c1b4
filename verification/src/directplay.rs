use vstd::prelude::*;

use crate::guid::Guid;

verus! {

/// Connection flag: join an existing session.
pub const DPOPEN_JOIN: u32 = 0x00000001;

/// Connection flag: create (host) a new session.
pub const DPOPEN_CREATE: u32 = 0x00000002;

/// One element of a DirectPlay compound address: a data type and the bytes
/// of its data (the byte count handed to DirectPlay is the length of `data`).
#[derive(Debug)]
pub struct DPCompoundAddressElement {
    pub guid_data_type: Guid,
    pub data: Vec<u8>,
}

impl DPCompoundAddressElement {
    /// The element as a pair of its data type and its data bytes.
    pub open spec fn spec_pair(self) -> (Guid, Seq<u8>) {
        (self.guid_data_type, self.data@)
    }

    /// The number of data bytes, as DirectPlay's `u32` size field.
    pub fn data_size(&self) -> (size: u32)
        requires
            self.data@.len() <= u32::MAX,
        ensures
            size == self.data@.len(),
    {
        self.data.len() as u32
    }
}

impl DeepView for DPCompoundAddressElement {
    type V = (Guid, Seq<u8>);

    open spec fn deep_view(&self) -> (Guid, Seq<u8>) {
        self.spec_pair()
    }
}

/// A player name as DirectPlay holds it. Each name is kept as the bytes
/// that precede the NUL byte ending the C string.
#[derive(Debug)]
pub struct DPName {
    pub flags: u32,
    pub short_name: Vec<u8>,
    pub long_name: Vec<u8>,
}

/// A locally registered application, as the lobby reports it while it
/// enumerates them: its identifier and the bytes of its name (before the NUL).
#[derive(Debug)]
pub struct DPLAppInfo {
    pub guid_application: Guid,
    pub app_name: Vec<u8>,
}

/// The description of the session that a launched application opens.
/// The session name is kept as the bytes before its terminating NUL; a
/// password of `None` is the null pointer. Reserved and user data are null.
#[derive(Debug)]
pub struct DPSessionDesc2 {
    pub flags: u32,
    pub guid_instance: Guid,
    pub guid_application: Guid,
    pub max_players: u32,
    pub current_players: u32,
    pub session_name: Vec<u8>,
    pub password: Option<Vec<u8>>,
}

/// The connection settings handed to the lobby to run an application: how to
/// open the session, its description, the player's name, the service
/// provider and the compound address (whose length is the address size).
#[derive(Debug)]
pub struct DPLConnection {
    pub flags: u32,
    pub session_desc: DPSessionDesc2,
    pub player_name: DPName,
    pub guid_sp: Guid,
    pub address: Vec<u8>,
}


/// The content of a `DPLConnection`, with every byte string as a sequence.
#[verifier::ext_equal]
pub struct ConnectionView {
    pub flags: u32,
    pub session_flags: u32,
    pub guid_instance: Guid,
    pub guid_application: Guid,
    pub max_players: u32,
    pub current_players: u32,
    pub session_name: Seq<u8>,
    pub password: Option<Seq<u8>>,
    pub player_flags: u32,
    pub short_name: Seq<u8>,
    pub long_name: Seq<u8>,
    pub guid_sp: Guid,
    pub address: Seq<u8>,
}

impl View for DPLConnection {
    type V = ConnectionView;

    open spec fn view(&self) -> ConnectionView {
        ConnectionView {
            flags: self.flags,
            session_flags: self.session_desc.flags,
            guid_instance: self.session_desc.guid_instance,
            guid_application: self.session_desc.guid_application,
            max_players: self.session_desc.max_players,
            current_players: self.session_desc.current_players,
            session_name: self.session_desc.session_name@,
            password: match self.session_desc.password {
                Some(p) => Some(p@),
                None => None,
            },
            player_flags: self.player_name.flags,
            short_name: self.player_name.short_name@,
            long_name: self.player_name.long_name@,
            guid_sp: self.guid_sp,
            address: self.address@,
        }
    }
}

} // verus!
