use chess_client::client::{Client, LoopStep};
use chess_client::command::{Argument, Command};
use chess_client::opcode::Opcode;
use chess_client::packet::Packet;
use chess_client::queue::OutboundQueue;

#[test]
fn address_appends_fixed_port() {
    let client = Client::new("127.0.0.1".to_string());
    assert_eq!(client.address(), "127.0.0.1:8088");
}

#[test]
fn join_command_carries_the_name() {
    let cmd = Client::join_command("Kyle");
    assert_eq!(cmd.id, Opcode::Join);
    assert_eq!(cmd.arg, Some(Argument::Text("Kyle".to_string())));
}

#[test]
fn run_cmd_enqueues_one_packet() {
    let mut queue = OutboundQueue::new();
    let cmd = Command::from_strings(vec!["show_game"]).unwrap();
    assert!(Client::run_cmd(cmd, &mut queue).is_ok());
    assert_eq!(queue.len(), 1);
    let pkt = queue.dequeue().unwrap();
    assert_eq!(pkt.op, Opcode::ShowGame);
}

#[test]
fn queue_is_first_in_first_out() {
    let mut queue = OutboundQueue::new();
    let user = Command::from_strings(vec!["send_move", "e2e4"]).unwrap();
    let (user_pkt, _) = user.build_packet();
    queue.enqueue(user_pkt);
    Client::keep_alive_tick(&mut queue);
    let other = Command::from_strings(vec!["list_games"]).unwrap();
    let (other_pkt, _) = other.build_packet();
    queue.enqueue(other_pkt);

    assert_eq!(queue.dequeue().unwrap().op, Opcode::SendMove);
    assert_eq!(queue.dequeue().unwrap().op, Opcode::KeepAlive);
    assert_eq!(queue.dequeue().unwrap().op, Opcode::ListGames);
    assert!(queue.dequeue().is_none());
}

#[test]
fn responses_render_their_confirmations() {
    let fen = b"rnbqkbnr/pppppppp/8/8/8/8/PPPPPPPP/RNBQKBNR w KQkq - 0 1".to_vec();
    let lines = Client::process_resp(Packet::new(Opcode::SendMoveResp, fen.clone()));
    assert_eq!(lines[0], "Move accepted:");
    assert_eq!(lines[1].as_bytes(), &fen[..]);

    let lines = Client::process_resp(Packet::new(Opcode::RecvMove, b"f".to_vec()));
    assert_eq!(lines, vec!["Opponent played:".to_string(), "f".to_string()]);

    let lines = Client::process_resp(Packet::new(Opcode::ShowGameResp, b"f".to_vec()));
    assert_eq!(lines, vec!["f".to_string()]);

    let lines = Client::process_resp(Packet::new(Opcode::JoinGameResp, b"f".to_vec()));
    assert_eq!(lines, vec!["Game joined:".to_string(), "f".to_string()]);

    let lines = Client::process_resp(Packet::new(Opcode::CreateGameResp, b"f".to_vec()));
    assert_eq!(lines, vec!["Game created:".to_string(), "f".to_string()]);

    let lines = Client::process_resp(Packet::new(Opcode::LeaveGameResp, b"7".to_vec()));
    assert_eq!(lines, vec!["Left game 7.".to_string()]);

    let lines = Client::process_resp(Packet::new(Opcode::Error, b"oops".to_vec()));
    assert_eq!(lines, vec!["Error: oops".to_string()]);

    let lines = Client::process_resp(Packet::new(Opcode::ListGamesResp, b"1, 2".to_vec()));
    assert_eq!(lines, vec!["1, 2".to_string()]);
}

#[test]
fn cmd_loop_step_surfaces_write_failures() {
    let step = Client::cmd_loop_step(
        Some(Err("connection reset".to_string())),
        vec!["show_game"],
    );
    match step {
        LoopStep::Fatal(e) => assert_eq!(e, "connection reset"),
        _ => panic!("a failed write must stop the loop"),
    }
}

#[test]
fn cmd_loop_step_enqueues_parsed_commands() {
    let step = Client::cmd_loop_step(Some(Ok(())), vec!["join_game", "42"]);
    match step {
        LoopStep::Enqueue(pkt, requires_response) => {
            assert_eq!(pkt.op, Opcode::JoinGame);
            assert_eq!(pkt.payload, vec![0, 0, 0, 42]);
            assert!(requires_response);
        },
        _ => panic!("a parsed command must be queued"),
    }
}

#[test]
fn cmd_loop_step_reports_parse_errors_and_continues() {
    let step = Client::cmd_loop_step(None, vec!["flip_board"]);
    match step {
        LoopStep::Reject(e) => assert_eq!(e, "Invalid command."),
        _ => panic!("a parse failure is not fatal"),
    }
}

/// A mock server loop: the client queues `join Kyle`, `create_game white`,
/// then `show_game`; the writer drains the queue in order and the server
/// answers each frame by echoing the matching response opcode with a payload,
/// which the reader decodes and renders.
#[test]
fn session_against_echo_server_renders_three_confirmations() {
    let mut queue = OutboundQueue::new();

    // handshake first, before any other producer
    let join = Client::join_command("Kyle");
    assert!(Client::run_cmd(join, &mut queue).is_ok());

    for tokens in [vec!["create_game", "white"], vec!["show_game"]] {
        match Client::cmd_loop_step(None, tokens) {
            LoopStep::Enqueue(pkt, _) => queue.enqueue(pkt),
            _ => panic!("both commands are valid"),
        }
    }

    let mut rendered: Vec<Vec<String>> = Vec::new();
    while let Some(outbound) = queue.dequeue() {
        // writer: serialize and "send"
        let wire = outbound.encode();
        // mock server: decode the frame, answer with the echoed response
        let seen = Packet::decode(&wire).unwrap();
        let reply = Packet::new(seen.op, b"ok".to_vec()).encode();
        // reader: decode and render, never touching the writer's state
        let inbound = Packet::decode(&reply).unwrap();
        rendered.push(Client::process_resp(inbound));
    }

    // echoed request opcodes carry no special rendering: each shows its text
    assert_eq!(rendered.len(), 3);
    for lines in rendered {
        assert_eq!(lines, vec!["ok".to_string()]);
    }
}
