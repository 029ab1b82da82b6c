use vstd::prelude::*;

use crate::gametypes::map_position::MapPosition;

verus! {

/// A pattern that the regex crate could not compile; carried as it came.
#[verifier::external_type_specification]
#[verifier::external_body]
pub struct ExRegexError(regex::Error);

/// The server's own error cases.
#[derive(Debug)]
pub enum AscendingError {
    Unhandled,
    MultiLogin,
    RegisterFail,
    UserNotFound,
    InvalidSocket,
    PacketManipulation { name: String },
    PacketReject { num: usize, message: String },
    InvalidPacket,
    IncorrectPassword,
    NoUsernameSet,
    NoPasswordSet,
    MapNotFound(MapPosition),
    NpcNotFound(u64),
    InvalidPacketSize { length: u64, max: usize },
    MissingKind,
    MissingEntity,
    TryLockError,
    MutexLockError,
    RegexError { error: regex::Error },
}

impl AscendingError {
    pub fn missing_kind() -> (r: Self)
        ensures
            r is MissingKind,
    {
        AscendingError::MissingKind
    }

    pub fn missing_entity() -> (r: Self)
        ensures
            r is MissingEntity,
    {
        AscendingError::MissingEntity
    }
}

} // verus!
