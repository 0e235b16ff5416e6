use pingpong::client::{ClientAction, ClientEvent, ClientSession};
use pingpong::config::Model;
use pingpong::elapsed::Elapsed;
use pingpong::harness::{trial_elapsed, Workload};
use pingpong::server::{Server, ServerAction, ServerEvent, ServerSession};
use pingpong::wire::{is_response, REQUEST_BYTE, REQUEST_LEN, RESPONSE_LEN};

/// One connection held in memory: a worker, its handler and the bytes in
/// flight each way.
struct Link {
    client: ClientSession,
    handler: ServerSession,
    to_server: Vec<u8>,
    to_client: Vec<u8>,
    client_closed: bool,
    requests_sent: u64,
    bytes_received: u64,
    responses_checked: u64,
}

fn link(server: &Server, share: u64) -> Link {
    Link {
        client: ClientSession::new(share),
        handler: server.session(),
        to_server: Vec::new(),
        to_client: Vec::new(),
        client_closed: false,
        requests_sent: 0,
        bytes_received: 0,
        responses_checked: 0,
    }
}

/// Performs the worker's pending operation if it can be performed now.
/// Returns whether anything happened.
fn step_client(link: &mut Link, request_byte: u8) -> bool {
    match link.client.action() {
        ClientAction::Connect => {
            link.client.handle(ClientEvent::Connected);
            true
        }
        ClientAction::Configure(options) => {
            assert!(options.no_delay);
            assert!(!options.quick_ack);
            link.client.handle(ClientEvent::Configured);
            true
        }
        ClientAction::SendRequest => {
            link.to_server.push(request_byte);
            link.requests_sent += 1;
            link.client.handle(ClientEvent::RequestSent);
            true
        }
        ClientAction::ReceiveResponse => {
            if link.to_client.len() < RESPONSE_LEN {
                return false;
            }
            let response: Vec<u8> = link.to_client.drain(..RESPONSE_LEN).collect();
            assert!(is_response(&response));
            link.bytes_received += response.len() as u64;
            link.responses_checked += 1;
            link.client.handle(ClientEvent::ResponseReceived);
            true
        }
        ClientAction::Finish => {
            if link.client_closed {
                return false;
            }
            link.client_closed = true;
            true
        }
        ClientAction::Abort(error) => panic!("worker failed: {:?}", error),
    }
}

/// Performs the handler's pending operation if it can be performed now.
/// Returns whether anything happened.
fn step_handler(server: &Server, link: &mut Link) -> bool {
    match link.handler.action() {
        ServerAction::Configure(options) => {
            assert_eq!(options, server.options());
            link.handler.handle(ServerEvent::Configured);
            true
        }
        ServerAction::ReadRequest => {
            if link.to_server.len() >= REQUEST_LEN {
                let byte = link.to_server.remove(0);
                link.handler.handle(ServerEvent::Request(byte));
                true
            } else if link.client_closed {
                link.handler.handle(ServerEvent::PeerClosed { received: 0 });
                true
            } else {
                false
            }
        }
        ServerAction::WriteResponse => {
            link.to_client.extend_from_slice(server.response());
            link.handler.handle(ServerEvent::ResponseWritten);
            true
        }
        ServerAction::Close => false,
        ServerAction::Abort(error) => panic!("handler failed: {:?}", error),
    }
}

#[test]
fn one_exchange_yields_the_nine_bytes_for_every_request_byte() {
    let server = Server::new(Model::ThreadPerConnection, false);
    for byte in [0u8, 1, 0x2B, 0x7F, 0xFF] {
        let mut link = link(&server, 1);
        loop {
            let moved = step_client(&mut link, byte) | step_handler(&server, &mut link);
            if !moved {
                break;
            }
        }
        assert_eq!(link.requests_sent, 1);
        assert_eq!(link.bytes_received, 9);
        assert_eq!(link.handler.outcome(), Some(Ok(())));
        assert_eq!(link.client.outcome(), Some(Ok(())));
    }
}

#[test]
fn four_clients_of_a_thousand_exchanges_do_two_hundred_and_fifty_each() {
    let server = Server::new(Model::ThreadPerConnection, false);
    let workload = Workload::split(1000, 4).unwrap();
    let mut links: Vec<Link> = Vec::new();
    for _ in 0..workload.connections() {
        let mut link = link(&server, 0);
        link.client = workload.worker();
        links.push(link);
    }
    for link in links.iter_mut() {
        loop {
            let moved = step_client(link, REQUEST_BYTE) | step_handler(&server, link);
            if !moved {
                break;
            }
        }
    }
    let mut total = 0;
    for link in &links {
        assert_eq!(link.client.completed(), 250);
        assert_eq!(link.requests_sent, 250);
        assert_eq!(link.responses_checked, 250);
        assert_eq!(link.bytes_received, 250 * 9);
        assert_eq!(link.client.outcome(), Some(Ok(())));
        assert_eq!(link.handler.outcome(), Some(Ok(())));
        total += link.client.completed();
    }
    assert_eq!(total, workload.performed());

    let times = [
        Ok(Elapsed::new(0, 40_000_000).unwrap()),
        Ok(Elapsed::new(0, 44_000_000).unwrap()),
        Ok(Elapsed::new(0, 38_000_000).unwrap()),
        Ok(Elapsed::new(0, 42_000_000).unwrap()),
    ];
    assert_eq!(trial_elapsed(&times), Ok(Elapsed::new(0, 41_000_000).unwrap()));
}

#[test]
fn sixty_four_interleaved_connections_get_only_their_own_responses() {
    let server = Server::new(Model::EventLoop, true);
    let share = 20u64;
    let mut links: Vec<Link> = Vec::new();
    for _ in 0..64 {
        links.push(link(&server, share));
    }
    // One operation of one connection at a time, the connections taken in a
    // fixed but scattered order.
    let mut order: Vec<usize> = (0..64).collect();
    let mut seed = 0x9E37_79B9u32;
    loop {
        for i in (1..order.len()).rev() {
            seed = seed.wrapping_mul(1_664_525).wrapping_add(1_013_904_223);
            order.swap(i, (seed as usize >> 8) % (i + 1));
        }
        let mut moved = false;
        for &id in &order {
            let byte = id as u8;
            seed = seed.wrapping_mul(1_664_525).wrapping_add(1_013_904_223);
            if seed & 0x100 == 0 {
                moved |= step_client(&mut links[id], byte);
            } else {
                moved |= step_handler(&server, &mut links[id]);
            }
        }
        if !moved {
            let mut settled = true;
            for id in 0..links.len() {
                let byte = id as u8;
                settled &= !step_client(&mut links[id], byte);
                settled &= !step_handler(&server, &mut links[id]);
            }
            if settled {
                break;
            }
        }
    }
    for link in &links {
        assert_eq!(link.client.completed(), share);
        assert_eq!(link.requests_sent, share);
        assert_eq!(link.responses_checked, share);
        assert_eq!(link.bytes_received, share * RESPONSE_LEN as u64);
        assert!(link.to_client.is_empty());
        assert!(link.to_server.is_empty());
        assert_eq!(link.handler.outcome(), Some(Ok(())));
    }
}

#[test]
fn failed_handler_leaves_its_siblings_alone() {
    let server = Server::new(Model::ThreadPerConnection, false);
    let mut good = link(&server, 3);
    let mut bad = server.session();
    bad.handle(ServerEvent::Configured);
    bad.handle(ServerEvent::Request(0));
    bad.handle(ServerEvent::WriteFailed);
    assert!(matches!(bad.outcome(), Some(Err(_))));
    loop {
        let moved = step_client(&mut good, 0) | step_handler(&server, &mut good);
        if !moved {
            break;
        }
    }
    assert_eq!(good.client.completed(), 3);
    assert_eq!(good.handler.outcome(), Some(Ok(())));
}
