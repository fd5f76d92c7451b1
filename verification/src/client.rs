use vstd::prelude::*;

use crate::command::{arg_bytes, parse_of, ArgModel, Argument, Command, CommandModel};
use crate::opcode::{op_requires_response, Opcode};
use crate::packet::{lossy_text_of, Packet, PacketModel};
use crate::queue::OutboundQueue;

verus! {

/// The period, in seconds, between two keep-alive packets.
pub const KEEP_ALIVE_PERIOD_SECS: u64 = 5;

/// A client of the game server, identified by the host it connects to.
pub struct Client {
    pub server: String,
}

/// What one turn of the command loop decides.
pub enum LoopStep {
    /// An earlier write failed: stop the loop, surfacing the error.
    Fatal(String),
    /// The line parsed: queue this packet; the flag says whether the command
    /// expects a response.
    Enqueue(Packet, bool),
    /// The line did not parse: print the error and keep going.
    Reject(String),
}

/// The lines one inbound packet displays as: board-bearing responses get a
/// confirmation line before the payload text, leaving a game and errors wrap
/// the text, and anything else shows the raw text.
pub open spec fn response_lines(op: Opcode, text: Seq<char>) -> Seq<Seq<char>> {
    match op {
        Opcode::SendMoveResp => seq!["Move accepted:"@, text],
        Opcode::RecvMove => seq!["Opponent played:"@, text],
        Opcode::ShowGameResp => seq![text],
        Opcode::JoinGameResp => seq!["Game joined:"@, text],
        Opcode::CreateGameResp => seq!["Game created:"@, text],
        Opcode::LeaveGameResp => seq!["Left game "@ + text + "."@],
        Opcode::Error => seq!["Error: "@ + text],
        _ => seq![text],
    }
}

impl Client {
    pub fn new(server: String) -> (c: Client)
        ensures
            c.server@ == server@,
    {
        Client { server }
    }

    /// The address the connection goes to: the configured host on the fixed
    /// port 8088.
    pub fn address(&self) -> (r: String)
        ensures
            r@ == self.server@ + ":8088"@,
    {
        let s = self.server.clone();
        s.concat(":8088")
    }

    /// The mandatory first packet's command: join under the given name. The
    /// result is exactly what parsing the text `join <name>` gives.
    pub fn join_command(name: &str) -> (c: Command)
        ensures
            c@ == (CommandModel { id: Opcode::Join, arg: Some(ArgModel::Text(name@)) }),
            parse_of(seq!["join"@, name@]) == Ok::<CommandModel, Seq<char>>(c@),
    {
        let c = Command::new(Opcode::Join, Argument::Text(String::from_str(name)));
        proof {
            assert(parse_of(seq!["join"@, name@]) =~~= Ok::<CommandModel, Seq<char>>(c@));
        }
        c
    }

    /// Resolve a command to its packet and queue it behind everything already
    /// waiting. Always succeeds; writing happens later, in enqueue order.
    pub fn run_cmd(cmd: Command, queue: &mut OutboundQueue) -> (r: Result<(), String>)
        ensures
            r is Ok,
            final(queue)@ == old(queue)@.push(
                PacketModel { op: cmd@.id, payload: arg_bytes(cmd@.arg) },
            ),
    {
        let (pkt, _) = cmd.build_packet();
        queue.enqueue(pkt);
        Ok(())
    }

    /// One tick of the keep-alive task: queue the liveness packet behind
    /// whatever already waits, on the same queue user commands go through.
    /// The task performs this every `KEEP_ALIVE_PERIOD_SECS` seconds,
    /// independent of user activity.
    pub fn keep_alive_tick(queue: &mut OutboundQueue)
        ensures
            final(queue)@ == old(queue)@.push(
                PacketModel { op: Opcode::KeepAlive, payload: Seq::<u8>::empty() },
            ),
    {
        queue.enqueue(Packet::keep_alive());
        proof {
            assert(final(queue)@.last() =~= (PacketModel {
                op: Opcode::KeepAlive,
                payload: Seq::<u8>::empty(),
            }));
            assert(final(queue)@ =~= old(queue)@.push(
                PacketModel { op: Opcode::KeepAlive, payload: Seq::<u8>::empty() },
            ));
        }
    }

    /// Turn one inbound packet into the lines to show the user.
    pub fn process_resp(packet: Packet) -> (lines: Vec<String>)
        ensures
            lines.deep_view() == response_lines(packet@.op, lossy_text_of(packet@.payload)),
    {
        let text = packet.payload_str();
        let mut lines: Vec<String> = Vec::new();
        match packet.op {
            Opcode::SendMoveResp => {
                lines.push(String::from_str("Move accepted:"));
                lines.push(text);
            },
            Opcode::RecvMove => {
                lines.push(String::from_str("Opponent played:"));
                lines.push(text);
            },
            Opcode::ShowGameResp => {
                lines.push(text);
            },
            Opcode::JoinGameResp => {
                lines.push(String::from_str("Game joined:"));
                lines.push(text);
            },
            Opcode::CreateGameResp => {
                lines.push(String::from_str("Game created:"));
                lines.push(text);
            },
            Opcode::LeaveGameResp => {
                let line = String::from_str("Left game ").concat(text.as_str()).concat(".");
                lines.push(line);
            },
            Opcode::Error => {
                let line = String::from_str("Error: ").concat(text.as_str());
                lines.push(line);
            },
            _ => {
                lines.push(text);
            },
        }
        proof {
            assert(lines.deep_view() =~~= response_lines(
                packet@.op,
                lossy_text_of(packet@.payload),
            ));
        }
        lines
    }

    /// One turn of the command loop: a write error observed on the result
    /// channel is fatal; otherwise the tokens of the line the user typed
    /// either queue a packet or are rejected with the grammar's error.
    pub fn cmd_loop_step(write_result: Option<Result<(), String>>, tokens: Vec<&str>) -> (step:
        LoopStep)
        requires
            tokens@.len() >= 1,
        ensures
            match write_result {
                Some(Err(e)) => step matches LoopStep::Fatal(f) && f@ == e@,
                _ => match parse_of(tokens.deep_view()) {
                    Ok(c) => step matches LoopStep::Enqueue(p, rr) && p@ == (PacketModel {
                        op: c.id,
                        payload: arg_bytes(c.arg),
                    }) && rr == op_requires_response(c.id),
                    Err(msg) => step matches LoopStep::Reject(m) && m@ == msg,
                },
            },
    {
        if let Some(res) = write_result {
            if let Err(e) = res {
                return LoopStep::Fatal(e);
            }
        }
        match Command::from_strings(tokens) {
            Ok(cmd) => {
                let (pkt, rr) = cmd.build_packet();
                LoopStep::Enqueue(pkt, rr)
            },
            Err(e) => LoopStep::Reject(e),
        }
    }
}

} // verus!
