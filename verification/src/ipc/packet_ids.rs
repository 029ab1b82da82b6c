use vstd::prelude::*;

verus! {

/// Packets the server sends to IPC clients.
#[derive(Copy, Clone, Debug, PartialEq, Eq, Structural, Hash)]
pub enum ServerIPCID {
    UserList,
}

/// Packets IPC clients send to the server.
#[derive(Copy, Clone, Debug, PartialEq, Eq, Structural, Hash)]
pub enum ClientIPCID {
    GetUserList,
}

} // verus!
