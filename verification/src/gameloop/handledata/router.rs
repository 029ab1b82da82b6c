use vstd::prelude::*;

use crate::gametypes::error::AscendingError;

verus! {

/// The packets a game client sends.
#[derive(Copy, Clone, Debug, PartialEq, Eq, Structural, Hash)]
pub enum ClientPacket {
    OnlineCheck,
    Register,
    Login,
    HandShake,
    Move,
    Dir,
    Attack,
    UseItem,
    Unequip,
    SwitchInvSlot,
    PickUp,
    DropItem,
    DeleteItem,
    SwitchStorageSlot,
    DeleteStorageItem,
    DepositItem,
    WithdrawItem,
    Message,
    Command,
    SetTarget,
    CloseStorage,
    CloseShop,
    CloseTrade,
    BuyItem,
    SellItem,
    AddTradeItem,
    RemoveTradeItem,
    UpdateTradeMoney,
    SubmitTrade,
    AcceptTrade,
    DeclineTrade,
    Ping,
    TlsReconnect,
    TlsHandShake,
    Disconnect,
    Reconnect,
    LoginOk,
}

/// Packets that open a session.
pub open spec fn opens_session(id: ClientPacket) -> bool {
    id is Login || id is Register || id is HandShake
}

/// Packets a socket without a logged-in player may send.
pub open spec fn allowed_before_login(id: ClientPacket) -> bool {
    id is Login || id is Register || id is OnlineCheck || id is HandShake || id is Ping
        || id is TlsHandShake || id is TlsReconnect
}

/// Decides what to do with a packet `id` from a socket that does or does not
/// have a logged-in player: a logged-in player may not open another session,
/// a stranger may only send the pre-login packets, an online check needs no
/// handler. `Ok(true)` means the packet goes to its handler.
pub fn check_packet(id: ClientPacket, logged_in: bool) -> (r: Result<bool, AscendingError>)
    ensures
        logged_in && opens_session(id) <==> r == Err::<bool, AscendingError>(AscendingError::MultiLogin),
        !logged_in && !allowed_before_login(id)
            <==> (r matches Err(AscendingError::PacketManipulation { name }) && name@.len() == 0),
        r matches Ok(dispatch) ==> dispatch == !(id is OnlineCheck),
        r is Ok <==> (if logged_in { !opens_session(id) } else { allowed_before_login(id) }),
{
    if logged_in {
        match id {
            ClientPacket::Login | ClientPacket::Register | ClientPacket::HandShake => {
                return Err(AscendingError::MultiLogin);
            },
            _ => {},
        }
    } else {
        match id {
            ClientPacket::Login | ClientPacket::Register | ClientPacket::OnlineCheck
            | ClientPacket::HandShake | ClientPacket::Ping | ClientPacket::TlsHandShake
            | ClientPacket::TlsReconnect => {},
            _ => {
                return Err(AscendingError::PacketManipulation { name: String::new() });
            },
        }
    }
    Ok(!matches!(id, ClientPacket::OnlineCheck))
}

} // verus!
