use vstd::prelude::*;

use crate::opcode::{op_requires_response, Opcode};
use crate::packet::{Packet, PacketModel};
use crate::text::{dec_str, numeral_error_text, parse_u32, str_eq, u32_of_text, u32_to_string};

verus! {

/// The single typed argument a command can carry.
#[derive(Clone, PartialEq, Eq, Debug)]
pub enum Argument {
    Bool(bool),
    Int32(u32),
    Text(String),
}

/// The mathematical model of an argument.
#[verifier::ext_equal]
pub enum ArgModel {
    Bool(bool),
    Int32(u32),
    Text(Seq<char>),
}

impl View for Argument {
    type V = ArgModel;

    open spec fn view(&self) -> ArgModel {
        match self {
            Argument::Bool(b) => ArgModel::Bool(*b),
            Argument::Int32(i) => ArgModel::Int32(*i),
            Argument::Text(s) => ArgModel::Text(s@),
        }
    }
}

/// A user instruction: an operation tag and at most one typed argument.
/// Immutable once built; consumed once to build a packet.
#[derive(Clone, PartialEq, Eq, Debug)]
pub struct Command {
    pub id: Opcode,
    pub arg: Option<Argument>,
}

/// The mathematical model of a command.
#[verifier::ext_equal]
pub struct CommandModel {
    pub id: Opcode,
    pub arg: Option<ArgModel>,
}

impl View for Command {
    type V = CommandModel;

    open spec fn view(&self) -> CommandModel {
        CommandModel {
            id: self.id,
            arg: match &self.arg {
                Some(a) => Some(a@),
                None => None,
            },
        }
    }
}

/// The text of the error that rejects a command given the wrong number of
/// arguments; it names the command.
pub open spec fn arity_error(cmd: Seq<char>) -> Seq<char> {
    "Incorrect amount of arguments for "@ + cmd
}

/// Reject a token list whose length is not `len`, naming the command `cmd`
/// in the error.
pub fn check_len(args: &Vec<&str>, len: usize, cmd: &str) -> (r: Result<(), String>)
    ensures
        r is Ok <==> args@.len() == len,
        r is Err ==> r->Err_0@ == arity_error(cmd@),
{
    if args.len() != len {
        let msg = String::from_str("Incorrect amount of arguments for ").concat(cmd);
        return Err(msg);
    }
    Ok(())
}

/// The error text for an unrecognized first token.
pub open spec fn invalid_command_error() -> Seq<char> {
    "Invalid command."@
}

/// What parsing a token list yields: dispatch on the first token, check the
/// argument count, and type the one argument. This is the whole command
/// grammar.
pub open spec fn parse_of(toks: Seq<Seq<char>>) -> Result<CommandModel, Seq<char>>
    recommends
        toks.len() >= 1,
{
    let t = toks[0];
    if t == "join"@ {
        if toks.len() == 2 {
            Ok(CommandModel { id: Opcode::Join, arg: Some(ArgModel::Text(toks[1])) })
        } else {
            Err(arity_error("join"@))
        }
    } else if t == "create_game"@ {
        if toks.len() == 2 {
            Ok(CommandModel { id: Opcode::CreateGame, arg: Some(ArgModel::Bool(toks[1] == "white"@)) })
        } else {
            Err(arity_error("create_game"@))
        }
    } else if t == "join_game"@ {
        if toks.len() == 2 {
            match u32_of_text(toks[1]) {
                Ok(i) => Ok(CommandModel { id: Opcode::JoinGame, arg: Some(ArgModel::Int32(i)) }),
                Err(e) => Err(numeral_error_text(e)),
            }
        } else {
            Err(arity_error("join_game"@))
        }
    } else if t == "show_game"@ {
        if toks.len() == 1 {
            Ok(CommandModel { id: Opcode::ShowGame, arg: None })
        } else {
            Err(arity_error("show_game"@))
        }
    } else if t == "list_games"@ {
        if toks.len() == 1 {
            Ok(CommandModel { id: Opcode::ListGames, arg: None })
        } else {
            Err(arity_error("list_games"@))
        }
    } else if t == "leave_game"@ {
        if toks.len() == 1 {
            Ok(CommandModel { id: Opcode::LeaveGame, arg: None })
        } else {
            Err(arity_error("leave_game"@))
        }
    } else if t == "send_move"@ {
        if toks.len() == 2 {
            Ok(CommandModel { id: Opcode::SendMove, arg: Some(ArgModel::Text(toks[1])) })
        } else {
            Err(arity_error("send_move"@))
        }
    } else {
        Err(invalid_command_error())
    }
}

/// The payload bytes an argument occupies in a packet: a bool is one byte
/// (1 or 0), an unsigned 32-bit integer is four bytes big-endian, text is its
/// UTF-8 bytes, and no argument is an empty payload.
pub open spec fn arg_bytes(arg: Option<ArgModel>) -> Seq<u8> {
    match arg {
        None => Seq::<u8>::empty(),
        Some(ArgModel::Bool(b)) => seq![if b { 1u8 } else { 0u8 }],
        Some(ArgModel::Int32(i)) => u32_be_bytes(i),
        Some(ArgModel::Text(s)) => vstd::utf8::encode_utf8(s),
    }
}

/// The four big-endian bytes of an unsigned 32-bit integer.
pub open spec fn u32_be_bytes(i: u32) -> Seq<u8> {
    seq![
        ((i >> 24) & 0xff) as u8,
        ((i >> 16) & 0xff) as u8,
        ((i >> 8) & 0xff) as u8,
        (i & 0xff) as u8,
    ]
}

/// Split an unsigned 32-bit integer into its big-endian bytes.
pub fn u32_to_be_bytes(i: u32) -> (r: Vec<u8>)
    ensures
        r@ == u32_be_bytes(i),
{
    proof {
        assert((i >> 24) & 0xff < 256 && (i >> 16) & 0xff < 256 && (i >> 8) & 0xff < 256 && i
            & 0xff < 256) by (bit_vector);
    }
    let mut r: Vec<u8> = Vec::new();
    r.push(((i >> 24) & 0xff) as u8);
    r.push(((i >> 16) & 0xff) as u8);
    r.push(((i >> 8) & 0xff) as u8);
    r.push((i & 0xff) as u8);
    proof {
        assert(r@ =~= u32_be_bytes(i));
    }
    r
}

/// The name an opcode goes by in a command's textual form.
pub open spec fn op_name(op: Opcode) -> Seq<char> {
    match op {
        Opcode::KeepAlive => "keep_alive"@,
        Opcode::Join => "join"@,
        Opcode::CreateGame => "create_game"@,
        Opcode::JoinGame => "join_game"@,
        Opcode::ShowGame => "show_game"@,
        Opcode::ListGames => "list_games"@,
        Opcode::LeaveGame => "leave_game"@,
        Opcode::SendMove => "send_move"@,
        Opcode::SendMsg => "send_message"@,
        Opcode::CreateGameResp => "create_game_resp"@,
        Opcode::JoinGameResp => "join_game_resp"@,
        Opcode::ShowGameResp => "show_game_resp"@,
        Opcode::ListGamesResp => "list_games_resp"@,
        Opcode::LeaveGameResp => "leave_game_resp"@,
        Opcode::SendMoveResp => "send_move_resp"@,
        Opcode::RecvMove => "recv_move"@,
        Opcode::Error => "error"@,
    }
}

fn op_name_str(op: &Opcode) -> (r: &'static str)
    ensures
        r@ == op_name(*op),
{
    match op {
        Opcode::KeepAlive => "keep_alive",
        Opcode::Join => "join",
        Opcode::CreateGame => "create_game",
        Opcode::JoinGame => "join_game",
        Opcode::ShowGame => "show_game",
        Opcode::ListGames => "list_games",
        Opcode::LeaveGame => "leave_game",
        Opcode::SendMove => "send_move",
        Opcode::SendMsg => "send_message",
        Opcode::CreateGameResp => "create_game_resp",
        Opcode::JoinGameResp => "join_game_resp",
        Opcode::ShowGameResp => "show_game_resp",
        Opcode::ListGamesResp => "list_games_resp",
        Opcode::LeaveGameResp => "leave_game_resp",
        Opcode::SendMoveResp => "send_move_resp",
        Opcode::RecvMove => "recv_move",
        Opcode::Error => "error",
    }
}

/// The text an argument shows as.
pub open spec fn arg_text(a: ArgModel) -> Seq<char> {
    match a {
        ArgModel::Bool(b) => if b {
            "true"@
        } else {
            "false"@
        },
        ArgModel::Int32(i) => dec_str(i as nat),
        ArgModel::Text(s) => s,
    }
}

/// A command's textual form.
pub open spec fn command_text(c: CommandModel) -> Seq<char> {
    match c.arg {
        None => op_name(c.id),
        Some(a) => op_name(c.id) + " "@ + arg_text(a),
    }
}

impl Command {
    pub fn new(id: Opcode, arg: Argument) -> (c: Command)
        ensures
            c@ == (CommandModel { id, arg: Some(arg@) }),
    {
        Command { id, arg: Some(arg) }
    }

    pub fn new_no_arg(id: Opcode) -> (c: Command)
        ensures
            c@ == (CommandModel { id, arg: None }),
    {
        Command { id, arg: None }
    }

    /// Build the one packet this command resolves to, together with whether
    /// the command expects the server to answer (false only for the join
    /// handshake and send-message).
    pub fn build_packet(&self) -> (r: (Packet, bool))
        ensures
            r.0@ == (PacketModel { op: self@.id, payload: arg_bytes(self@.arg) }),
            r.1 == op_requires_response(self@.id),
    {
        let pl: Vec<u8> = match &self.arg {
            None => Vec::new(),
            Some(Argument::Bool(b)) => {
                let mut v: Vec<u8> = Vec::new();
                v.push(if *b {
                    1
                } else {
                    0
                });
                v
            },
            Some(Argument::Int32(i)) => u32_to_be_bytes(*i),
            Some(Argument::Text(s)) => s.as_str().as_bytes_vec(),
        };
        proof {
            assert(pl@ =~= arg_bytes(self@.arg));
        }
        let req_resp = self.id.requires_response();
        (Packet::new(self.id, pl), req_resp)
    }

    /// The textual form of this command: the opcode's name, then a space and
    /// the argument's text if there is one.
    pub fn to_text(&self) -> (r: String)
        ensures
            r@ == command_text(self@),
    {
        let base = String::from_str(op_name_str(&self.id));
        match &self.arg {
            None => base,
            Some(arg) => {
                let mut s = base.concat(" ");
                match arg {
                    Argument::Bool(b) => s.append(
                        if *b {
                            "true"
                        } else {
                            "false"
                        },
                    ),
                    Argument::Int32(i) => {
                        let num = u32_to_string(*i);
                        s.append(num.as_str());
                    },
                    Argument::Text(t) => s.append(t.as_str()),
                }
                proof {
                    assert(s@ =~= command_text(self@));
                }
                s
            },
        }
    }

    /// Parse a command from its whitespace-split tokens. Succeeds exactly on
    /// the texts the grammar recognizes, and fails with the error text the
    /// grammar assigns: an arity error naming the command, the integer
    /// parser's own message for a bad game id, or an invalid command.
    pub fn from_strings(strs: Vec<&str>) -> (r: Result<Command, String>)
        requires
            strs@.len() >= 1,
        ensures
            match r {
                Ok(c) => parse_of(strs.deep_view()) == Ok::<CommandModel, Seq<char>>(c@),
                Err(e) => parse_of(strs.deep_view()) == Err::<CommandModel, Seq<char>>(e@),
            },
    {
        let ghost toks = strs.deep_view();
        proof {
            assert(toks[0] == strs@[0]@);
        }
        let tok = strs[0];
        if str_eq(tok, "join") {
            match check_len(&strs, 2, "join") {
                Err(e) => Err(e),
                Ok(()) => {
                    proof {
                        assert(toks[1] == strs@[1]@);
                    }
                    let c = Command::new(Opcode::Join, Argument::Text(String::from_str(strs[1])));
                    proof {
                        assert(parse_of(toks) =~~= Ok::<CommandModel, Seq<char>>(c@));
                    }
                    Ok(c)
                },
            }
        } else if str_eq(tok, "create_game") {
            match check_len(&strs, 2, "create_game") {
                Err(e) => Err(e),
                Ok(()) => {
                    proof {
                        assert(toks[1] == strs@[1]@);
                    }
                    let white = str_eq(strs[1], "white");
                    let c = Command::new(Opcode::CreateGame, Argument::Bool(white));
                    proof {
                        assert(parse_of(toks) =~~= Ok::<CommandModel, Seq<char>>(c@));
                    }
                    Ok(c)
                },
            }
        } else if str_eq(tok, "join_game") {
            match check_len(&strs, 2, "join_game") {
                Err(e) => Err(e),
                Ok(()) => {
                    proof {
                        assert(toks[1] == strs@[1]@);
                    }
                    match parse_u32(strs[1]) {
                        Ok(i) => {
                            let c = Command::new(Opcode::JoinGame, Argument::Int32(i));
                            proof {
                                assert(parse_of(toks) =~~= Ok::<CommandModel, Seq<char>>(c@));
                            }
                            Ok(c)
                        },
                        Err(e) => Err(e.message()),
                    }
                },
            }
        } else if str_eq(tok, "show_game") {
            match check_len(&strs, 1, "show_game") {
                Err(e) => Err(e),
                Ok(()) => {
                    let c = Command::new_no_arg(Opcode::ShowGame);
                    proof {
                        assert(parse_of(toks) =~~= Ok::<CommandModel, Seq<char>>(c@));
                    }
                    Ok(c)
                },
            }
        } else if str_eq(tok, "list_games") {
            match check_len(&strs, 1, "list_games") {
                Err(e) => Err(e),
                Ok(()) => {
                    let c = Command::new_no_arg(Opcode::ListGames);
                    proof {
                        assert(parse_of(toks) =~~= Ok::<CommandModel, Seq<char>>(c@));
                    }
                    Ok(c)
                },
            }
        } else if str_eq(tok, "leave_game") {
            match check_len(&strs, 1, "leave_game") {
                Err(e) => Err(e),
                Ok(()) => {
                    let c = Command::new_no_arg(Opcode::LeaveGame);
                    proof {
                        assert(parse_of(toks) =~~= Ok::<CommandModel, Seq<char>>(c@));
                    }
                    Ok(c)
                },
            }
        } else if str_eq(tok, "send_move") {
            match check_len(&strs, 2, "send_move") {
                Err(e) => Err(e),
                Ok(()) => {
                    proof {
                        assert(toks[1] == strs@[1]@);
                    }
                    let c = Command::new(Opcode::SendMove, Argument::Text(String::from_str(strs[1])));
                    proof {
                        assert(parse_of(toks) =~~= Ok::<CommandModel, Seq<char>>(c@));
                    }
                    Ok(c)
                },
            }
        } else {
            Err(String::from_str("Invalid command."))
        }
    }
}

/// Whether a first token names a command the grammar recognizes.
pub open spec fn recognized(t: Seq<char>) -> bool {
    t == "join"@ || t == "create_game"@ || t == "join_game"@ || t == "show_game"@ || t
        == "list_games"@ || t == "leave_game"@ || t == "send_move"@
}

/// How many tokens a recognized command takes, the command's own name
/// included.
pub open spec fn arity_of(t: Seq<char>) -> int {
    if t == "join"@ || t == "create_game"@ || t == "join_game"@ || t == "send_move"@ {
        2
    } else {
        1
    }
}

/// Law: round trip. Parsing a valid command text, building its packet, and
/// framing that packet gives bytes that decode back to exactly the command's
/// opcode and argument bytes. Holds for every argument whose bytes fit behind
/// the one-byte length field of a frame.
pub proof fn lemma_command_round_trip(toks: Seq<Seq<char>>)
    requires
        toks.len() >= 1,
        parse_of(toks) is Ok,
        arg_bytes(parse_of(toks)->Ok_0.arg).len() <= crate::packet::MAX_PAYLOAD,
    ensures
        ({
            let c = parse_of(toks)->Ok_0;
            let p = PacketModel { op: c.id, payload: arg_bytes(c.arg) };
            crate::packet::decode_spec(crate::packet::encode_spec(p)) == Some(p)
        }),
{
    let c = parse_of(toks)->Ok_0;
    crate::packet::lemma_encode_decode_round_trip(
        PacketModel { op: c.id, payload: arg_bytes(c.arg) },
    );
}

/// Law: of the texts the grammar recognizes, only the join handshake skips
/// the response flag; every other parsed command expects a response. The
/// send-message opcode skips it too, but no command text produces that
/// opcode.
pub proof fn lemma_parsed_response_flag(toks: Seq<Seq<char>>)
    requires
        toks.len() >= 1,
        parse_of(toks) is Ok,
    ensures
        op_requires_response(parse_of(toks)->Ok_0.id) <==> toks[0] != "join"@,
        !op_requires_response(Opcode::SendMsg),
{
    proof_distinct_command_names();
}

/// Law: `create_game` with one extra token parses, and its argument is the
/// boolean that is true exactly when that token is the literal `white`.
pub proof fn lemma_create_game_color(toks: Seq<Seq<char>>)
    requires
        toks.len() == 2,
        toks[0] == "create_game"@,
    ensures
        parse_of(toks) == Ok::<CommandModel, Seq<char>>(
            CommandModel {
                id: Opcode::CreateGame,
                arg: Some(ArgModel::Bool(toks[1] == "white"@)),
            },
        ),
{
    proof_distinct_command_names();
}

/// Law: a recognized command given the wrong number of tokens is rejected,
/// and the error names that command.
pub proof fn lemma_wrong_arity_names_command(toks: Seq<Seq<char>>)
    requires
        toks.len() >= 1,
        recognized(toks[0]),
        toks.len() != arity_of(toks[0]),
    ensures
        parse_of(toks) == Err::<CommandModel, Seq<char>>(arity_error(toks[0])),
{
    proof_distinct_command_names();
}

/// The seven command names are pairwise distinct pieces of text.
proof fn proof_distinct_command_names()
    ensures
        "join"@ != "create_game"@,
        "join"@ != "join_game"@,
        "create_game"@ != "join_game"@,
        "join"@ != "show_game"@,
        "create_game"@ != "show_game"@,
        "join_game"@ != "show_game"@,
        "join"@ != "list_games"@,
        "create_game"@ != "list_games"@,
        "join_game"@ != "list_games"@,
        "show_game"@ != "list_games"@,
        "join"@ != "leave_game"@,
        "create_game"@ != "leave_game"@,
        "join_game"@ != "leave_game"@,
        "show_game"@ != "leave_game"@,
        "list_games"@ != "leave_game"@,
        "join"@ != "send_move"@,
        "create_game"@ != "send_move"@,
        "join_game"@ != "send_move"@,
        "show_game"@ != "send_move"@,
        "list_games"@ != "send_move"@,
        "leave_game"@ != "send_move"@,
{
    reveal_strlit("join");
    reveal_strlit("create_game");
    reveal_strlit("join_game");
    reveal_strlit("show_game");
    reveal_strlit("list_games");
    reveal_strlit("leave_game");
    reveal_strlit("send_move");
    assert("join"@.len() == 4);
    assert("create_game"@.len() == 11);
    assert("join_game"@.len() == 9);
    assert("show_game"@.len() == 9);
    assert("list_games"@.len() == 10);
    assert("leave_game"@.len() == 10);
    assert("send_move"@.len() == 9);
    assert("join_game"@[0] == 'j' && "show_game"@[0] == 's' && "send_move"@[0] == 's');
    assert("show_game"@[1] == 'h' && "send_move"@[1] == 'e');
    assert("list_games"@[1] == 'i' && "leave_game"@[1] == 'e');
}

} // verus!
