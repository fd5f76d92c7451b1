use vstd::prelude::*;

verus! {

/// The closed set of operations a packet can carry: one tag per request the
/// client can issue (including the periodic keep-alive), one per response the
/// server can send back, and an error tag.
#[derive(Clone, Copy, PartialEq, Eq, Structural, Debug)]
pub enum Opcode {
    KeepAlive,
    Join,
    CreateGame,
    JoinGame,
    ShowGame,
    ListGames,
    LeaveGame,
    SendMove,
    SendMsg,
    CreateGameResp,
    JoinGameResp,
    ShowGameResp,
    ListGamesResp,
    LeaveGameResp,
    SendMoveResp,
    RecvMove,
    Error,
}

/// The single byte that stands for an opcode on the wire.
pub open spec fn op_byte(op: Opcode) -> u8 {
    match op {
        Opcode::KeepAlive => 0,
        Opcode::Join => 1,
        Opcode::CreateGame => 2,
        Opcode::JoinGame => 3,
        Opcode::ShowGame => 4,
        Opcode::ListGames => 5,
        Opcode::LeaveGame => 6,
        Opcode::SendMove => 7,
        Opcode::SendMsg => 8,
        Opcode::CreateGameResp => 9,
        Opcode::JoinGameResp => 10,
        Opcode::ShowGameResp => 11,
        Opcode::ListGamesResp => 12,
        Opcode::LeaveGameResp => 13,
        Opcode::SendMoveResp => 14,
        Opcode::RecvMove => 15,
        Opcode::Error => 16,
    }
}

/// The opcode a wire byte stands for, if any.
pub open spec fn op_of_byte(b: u8) -> Option<Opcode> {
    if b == 0 {
        Some(Opcode::KeepAlive)
    } else if b == 1 {
        Some(Opcode::Join)
    } else if b == 2 {
        Some(Opcode::CreateGame)
    } else if b == 3 {
        Some(Opcode::JoinGame)
    } else if b == 4 {
        Some(Opcode::ShowGame)
    } else if b == 5 {
        Some(Opcode::ListGames)
    } else if b == 6 {
        Some(Opcode::LeaveGame)
    } else if b == 7 {
        Some(Opcode::SendMove)
    } else if b == 8 {
        Some(Opcode::SendMsg)
    } else if b == 9 {
        Some(Opcode::CreateGameResp)
    } else if b == 10 {
        Some(Opcode::JoinGameResp)
    } else if b == 11 {
        Some(Opcode::ShowGameResp)
    } else if b == 12 {
        Some(Opcode::ListGamesResp)
    } else if b == 13 {
        Some(Opcode::LeaveGameResp)
    } else if b == 14 {
        Some(Opcode::SendMoveResp)
    } else if b == 15 {
        Some(Opcode::RecvMove)
    } else if b == 16 {
        Some(Opcode::Error)
    } else {
        None
    }
}

/// Whether a command with this opcode expects the server to answer: false
/// only for the join handshake and the send-message command.
pub open spec fn op_requires_response(op: Opcode) -> bool {
    !(op == Opcode::Join || op == Opcode::SendMsg)
}

impl Opcode {
    pub fn to_byte(&self) -> (b: u8)
        ensures
            b == op_byte(*self),
    {
        match self {
            Opcode::KeepAlive => 0,
            Opcode::Join => 1,
            Opcode::CreateGame => 2,
            Opcode::JoinGame => 3,
            Opcode::ShowGame => 4,
            Opcode::ListGames => 5,
            Opcode::LeaveGame => 6,
            Opcode::SendMove => 7,
            Opcode::SendMsg => 8,
            Opcode::CreateGameResp => 9,
            Opcode::JoinGameResp => 10,
            Opcode::ShowGameResp => 11,
            Opcode::ListGamesResp => 12,
            Opcode::LeaveGameResp => 13,
            Opcode::SendMoveResp => 14,
            Opcode::RecvMove => 15,
            Opcode::Error => 16,
        }
    }

    pub fn from_byte(b: u8) -> (op: Option<Opcode>)
        ensures
            op == op_of_byte(b),
    {
        if b == 0 {
            Some(Opcode::KeepAlive)
        } else if b == 1 {
            Some(Opcode::Join)
        } else if b == 2 {
            Some(Opcode::CreateGame)
        } else if b == 3 {
            Some(Opcode::JoinGame)
        } else if b == 4 {
            Some(Opcode::ShowGame)
        } else if b == 5 {
            Some(Opcode::ListGames)
        } else if b == 6 {
            Some(Opcode::LeaveGame)
        } else if b == 7 {
            Some(Opcode::SendMove)
        } else if b == 8 {
            Some(Opcode::SendMsg)
        } else if b == 9 {
            Some(Opcode::CreateGameResp)
        } else if b == 10 {
            Some(Opcode::JoinGameResp)
        } else if b == 11 {
            Some(Opcode::ShowGameResp)
        } else if b == 12 {
            Some(Opcode::ListGamesResp)
        } else if b == 13 {
            Some(Opcode::LeaveGameResp)
        } else if b == 14 {
            Some(Opcode::SendMoveResp)
        } else if b == 15 {
            Some(Opcode::RecvMove)
        } else if b == 16 {
            Some(Opcode::Error)
        } else {
            None
        }
    }

    /// Whether a packet with this opcode expects a response from the server.
    pub fn requires_response(&self) -> (r: bool)
        ensures
            r == op_requires_response(*self),
    {
        !(*self == Opcode::Join || *self == Opcode::SendMsg)
    }
}

/// The wire byte of an opcode decodes back to that opcode: the byte
/// assignment is injective over the closed enumeration.
pub proof fn lemma_op_byte_round_trip(op: Opcode)
    ensures
        op_of_byte(op_byte(op)) == Some(op),
{
}

} // verus!
