use nrfxlib::{
    Action, AddressRecord, Connecting, Error, Event, Hints, LastErrorRegister, SocketAddress,
    TcpSocket,
};

/// How a scripted socket stack answers the attempt on one candidate.
#[derive(Clone, Copy)]
struct Answer {
    connect: i32,
    ready: i32,
    pending: u16,
}

/// A socket stack that answers from a script and counts what it is asked.
struct Stack {
    flags: i32,
    code: i32,
    records: Vec<AddressRecord>,
    answers: Vec<Answer>,
    last_error: i32,
    names: Vec<Vec<u8>>,
    hints: Vec<Hints>,
    addresses: Vec<SocketAddress>,
    written_flags: Vec<i32>,
    resolutions: usize,
    flag_reads: usize,
    connects: usize,
    waits: usize,
    error_reads: usize,
    releases: usize,
    register_reads: usize,
    calls: Vec<&'static str>,
}

impl Stack {
    fn new(code: i32, records: Vec<AddressRecord>, answers: Vec<Answer>) -> Stack {
        Stack {
            flags: 0x40,
            code,
            records,
            answers,
            last_error: 0,
            names: Vec::new(),
            hints: Vec::new(),
            addresses: Vec::new(),
            written_flags: Vec::new(),
            resolutions: 0,
            flag_reads: 0,
            connects: 0,
            waits: 0,
            error_reads: 0,
            releases: 0,
            register_reads: 0,
            calls: Vec::new(),
        }
    }

    fn perform(&mut self, action: Action) -> Result<Event, Result<(), Error>> {
        match action {
            Action::Resolve { hostname, hints } => {
                self.calls.push("resolve");
                self.resolutions += 1;
                self.names.push(hostname);
                self.hints.push(hints);
                Ok(Event::Resolved { code: self.code, chain: self.records.clone() })
            }
            Action::GetFlags { descriptor } => {
                assert_eq!(descriptor, 3);
                self.calls.push("get_flags");
                self.flag_reads += 1;
                Ok(Event::Flags(self.flags))
            }
            Action::SetFlags { descriptor, flags } => {
                assert_eq!(descriptor, 3);
                self.calls.push("set_flags");
                self.flags = flags;
                self.written_flags.push(flags);
                Ok(Event::FlagsSet)
            }
            Action::Connect { descriptor, address } => {
                assert_eq!(descriptor, 3);
                self.calls.push("connect");
                self.connects += 1;
                self.addresses.push(address);
                Ok(Event::ConnectReturned(self.answers[self.connects - 1].connect))
            }
            Action::Wait { descriptor, seconds, microseconds } => {
                assert_eq!(descriptor, 3);
                assert_eq!(seconds, 7);
                assert_eq!(microseconds, 0);
                assert_eq!(self.flags & 1, 1);
                self.calls.push("wait");
                self.waits += 1;
                Ok(Event::WaitReturned(self.answers[self.connects - 1].ready))
            }
            Action::GetPendingError { descriptor } => {
                assert_eq!(descriptor, 3);
                self.calls.push("pending_error");
                self.error_reads += 1;
                Ok(Event::PendingError(self.answers[self.connects - 1].pending))
            }
            Action::Release => {
                self.calls.push("release");
                self.releases += 1;
                Ok(Event::Released)
            }
            Action::ReadLastError => {
                self.calls.push("last_error");
                self.register_reads += 1;
                Ok(Event::LastError(self.last_error))
            }
            Action::Done(result) => Err(result),
        }
    }

    fn connect(&mut self, hostname: &str, port: u16) -> Result<(), Error> {
        let socket = open();
        let mut attempt: Connecting = socket.connect(hostname, port, 7);
        loop {
            match self.perform(attempt.action()) {
                Ok(event) => attempt = attempt.step(event),
                Err(result) => {
                    assert!(attempt.is_finished());
                    return result;
                }
            }
        }
    }
}

fn open() -> TcpSocket {
    TcpSocket::new(3, &LastErrorRegister::new()).unwrap()
}

fn record(address: u32) -> AddressRecord {
    AddressRecord { length: 16, family: 2, port: 0, address }
}

const REFUSED: Answer = Answer { connect: -1, ready: 1, pending: 111 };
const ACCEPTED: Answer = Answer { connect: -1, ready: 1, pending: 0 };
const TIMED_OUT: Answer = Answer { connect: -1, ready: 0, pending: 0 };
const WAIT_FAILED: Answer = Answer { connect: -1, ready: -1, pending: 0 };

#[test]
fn second_candidate_connects_after_first_is_refused() {
    let mut stack = Stack::new(0, vec![record(0x0100_007f), record(0x0200_007f)], vec![
        REFUSED, ACCEPTED,
    ]);
    assert_eq!(stack.connect("example.test", 80), Ok(()));
    assert_eq!(stack.connects, 2);
    assert_eq!(stack.releases, 1);
    assert_eq!(stack.resolutions, 1);
    assert_eq!(stack.register_reads, 0);
    assert_eq!(stack.addresses[0].address, 0x0100_007f);
    assert_eq!(stack.addresses[1].address, 0x0200_007f);
    assert_eq!(
        stack.calls,
        vec![
            "resolve",
            "get_flags",
            "set_flags",
            "connect",
            "wait",
            "pending_error",
            "set_flags",
            "get_flags",
            "set_flags",
            "connect",
            "wait",
            "pending_error",
            "set_flags",
            "release",
        ]
    );
}

#[test]
fn hostname_is_handed_to_the_resolver_with_a_nul() {
    let mut stack = Stack::new(0, vec![record(1)], vec![ACCEPTED]);
    assert_eq!(stack.connect("example.test", 80), Ok(()));
    assert_eq!(stack.names, vec![b"example.test\0".to_vec()]);
    assert_eq!(stack.hints, vec![Hints { flags: 0, family: 2, socktype: 1, protocol: 0 }]);
}

#[test]
fn hostname_of_63_bytes_fits() {
    let hostname = "a".repeat(63);
    let mut stack = Stack::new(0, vec![record(1)], vec![ACCEPTED]);
    assert_eq!(stack.connect(&hostname, 80), Ok(()));
    assert_eq!(stack.names[0].len(), 64);
    assert_eq!(stack.names[0][63], 0);
    assert_eq!(&stack.names[0][..63], hostname.as_bytes());
}

#[test]
fn hostname_of_64_bytes_is_too_long() {
    let hostname = "a".repeat(64);
    let mut stack = Stack::new(0, vec![record(1)], vec![ACCEPTED]);
    assert_eq!(stack.connect(&hostname, 80), Err(Error::HostnameTooLong));
    assert!(stack.calls.is_empty());
    assert_eq!(stack.resolutions, 0);
    assert_eq!(stack.flags, 0x40);
}

#[test]
fn long_hostname_makes_no_call() {
    let hostname = "host.".repeat(40);
    let mut stack = Stack::new(0, vec![record(1)], vec![ACCEPTED]);
    assert_eq!(stack.connect(&hostname, 443), Err(Error::HostnameTooLong));
    assert!(stack.calls.is_empty());
    let attempt = open().connect(&hostname, 443, 1);
    assert!(attempt.is_finished());
    assert_eq!(attempt.action(), Action::Done(Err(Error::HostnameTooLong)));
}

#[test]
fn hostname_length_counts_bytes_not_characters() {
    // 32 characters of two bytes each: 64 bytes, one too many with the NUL.
    let too_long = "\u{e9}".repeat(32);
    let mut stack = Stack::new(0, vec![record(1)], vec![ACCEPTED]);
    assert_eq!(stack.connect(&too_long, 80), Err(Error::HostnameTooLong));
    // 31 such characters and one ASCII letter: 63 bytes.
    let fits = format!("{}a", "\u{e9}".repeat(31));
    assert_eq!(stack.connect(&fits, 80), Ok(()));
    assert_eq!(stack.names[0].len(), 64);
    assert_eq!(&stack.names[0][..63], fits.as_bytes());
}

#[test]
fn empty_hostname_is_resolved_as_a_lone_nul() {
    let mut stack = Stack::new(0, vec![record(1)], vec![ACCEPTED]);
    assert_eq!(stack.connect("", 80), Ok(()));
    assert_eq!(stack.names, vec![vec![0u8]]);
}

#[test]
fn resolution_without_records_fails_and_leaves_flags_alone() {
    let mut stack = Stack::new(0, vec![], vec![]);
    stack.last_error = 22;
    assert_eq!(
        stack.connect("example.test", 80),
        Err(Error::ResolutionFailed("tcp_connect", 0, 22))
    );
    assert_eq!(stack.calls, vec!["resolve", "last_error"]);
    assert_eq!(stack.flag_reads, 0);
    assert!(stack.written_flags.is_empty());
    assert_eq!(stack.flags, 0x40);
    assert_eq!(stack.releases, 0);
}

#[test]
fn resolution_with_error_code_fails() {
    let mut stack = Stack::new(-5, vec![], vec![]);
    stack.last_error = 51;
    assert_eq!(
        stack.connect("example.test", 80),
        Err(Error::ResolutionFailed("tcp_connect", -5, 51))
    );
    assert_eq!(stack.connects, 0);
    assert_eq!(stack.flag_reads, 0);
    assert!(stack.written_flags.is_empty());
}

#[test]
fn chain_that_comes_with_an_error_code_is_released() {
    let mut stack = Stack::new(-5, vec![record(1)], vec![ACCEPTED]);
    stack.last_error = 9;
    assert_eq!(
        stack.connect("example.test", 80),
        Err(Error::ResolutionFailed("tcp_connect", -5, 9))
    );
    assert_eq!(stack.calls, vec!["resolve", "release", "last_error"]);
}

#[test]
fn first_success_ends_the_attempts() {
    let mut stack = Stack::new(0, vec![record(1), record(2), record(3), record(4)], vec![
        REFUSED, REFUSED, ACCEPTED, ACCEPTED,
    ]);
    assert_eq!(stack.connect("example.test", 80), Ok(()));
    assert_eq!(stack.connects, 3);
    assert_eq!(stack.waits, 3);
    assert_eq!(stack.error_reads, 3);
    assert_eq!(stack.releases, 1);
    assert_eq!(stack.addresses.len(), 3);
    assert_eq!(stack.addresses[2].address, 3);
}

#[test]
fn first_candidate_success_tries_no_other() {
    let mut stack = Stack::new(0, vec![record(1), record(2)], vec![ACCEPTED, ACCEPTED]);
    assert_eq!(stack.connect("example.test", 80), Ok(()));
    assert_eq!(stack.connects, 1);
    assert_eq!(stack.releases, 1);
}

#[test]
fn timeout_on_first_candidate_ends_the_attempts() {
    let mut stack = Stack::new(0, vec![record(1), record(2)], vec![TIMED_OUT, ACCEPTED]);
    stack.last_error = 115;
    assert_eq!(
        stack.connect("example.test", 80),
        Err(Error::ConnectFailed("tcp_connect", -1, 115))
    );
    assert_eq!(stack.connects, 1);
    assert_eq!(stack.error_reads, 0);
    assert_eq!(stack.releases, 1);
    assert_eq!(stack.flags, 0x40);
    assert_eq!(
        stack.calls,
        vec![
            "resolve",
            "get_flags",
            "set_flags",
            "connect",
            "wait",
            "set_flags",
            "release",
            "last_error"
        ]
    );
}

#[test]
fn timeout_after_a_refusal_ends_the_attempts() {
    let mut stack = Stack::new(0, vec![record(1), record(2), record(3)], vec![
        REFUSED, TIMED_OUT, ACCEPTED,
    ]);
    assert_eq!(
        stack.connect("example.test", 80),
        Err(Error::ConnectFailed("tcp_connect", -1, 0))
    );
    assert_eq!(stack.connects, 2);
    assert_eq!(stack.releases, 1);
}

#[test]
fn timeout_with_connect_code_zero_is_success() {
    let answer = Answer { connect: 0, ready: 0, pending: 0 };
    let mut stack = Stack::new(0, vec![record(1), record(2)], vec![answer, REFUSED]);
    assert_eq!(stack.connect("example.test", 80), Ok(()));
    assert_eq!(stack.connects, 1);
    assert_eq!(stack.register_reads, 0);
}

#[test]
fn failed_wait_moves_on_to_the_next_candidate() {
    let mut stack = Stack::new(0, vec![record(1), record(2)], vec![WAIT_FAILED, ACCEPTED]);
    assert_eq!(stack.connect("example.test", 80), Ok(()));
    assert_eq!(stack.connects, 2);
    assert_eq!(stack.error_reads, 1);
    assert_eq!(stack.releases, 1);
}

#[test]
fn failed_wait_fails_even_if_connect_returned_zero() {
    let odd = Answer { connect: 0, ready: -1, pending: 0 };
    let mut stack = Stack::new(0, vec![record(1), record(2)], vec![odd, ACCEPTED]);
    assert_eq!(stack.connect("example.test", 80), Ok(()));
    assert_eq!(stack.connects, 2);
    let mut stack = Stack::new(0, vec![record(1)], vec![odd]);
    stack.last_error = 9;
    assert_eq!(
        stack.connect("example.test", 80),
        Err(Error::ConnectFailed("tcp_connect", -1, 9))
    );
    assert_eq!(stack.error_reads, 0);
    assert_eq!(stack.releases, 1);
}

#[test]
fn two_ready_descriptors_count_as_a_failed_wait() {
    let odd = Answer { connect: -1, ready: 2, pending: 0 };
    let mut stack = Stack::new(0, vec![record(1)], vec![odd]);
    stack.last_error = 5;
    assert_eq!(
        stack.connect("example.test", 80),
        Err(Error::ConnectFailed("tcp_connect", -1, 5))
    );
    assert_eq!(stack.error_reads, 0);
}

#[test]
fn exhaustion_reports_the_last_code() {
    let other = Answer { connect: -1, ready: 1, pending: 113 };
    let mut stack = Stack::new(0, vec![record(1), record(2), record(3)], vec![
        REFUSED, WAIT_FAILED, other,
    ]);
    stack.last_error = 113;
    assert_eq!(
        stack.connect("example.test", 80),
        Err(Error::ConnectFailed("tcp_connect", 113, 113))
    );
    assert_eq!(stack.connects, 3);
    assert_eq!(stack.releases, 1);
    assert_eq!(stack.register_reads, 1);
    assert_eq!(*stack.calls.last().unwrap(), "last_error");
    assert_eq!(stack.calls[stack.calls.len() - 2], "release");
}

#[test]
fn pending_error_is_widened_unsigned() {
    let high = Answer { connect: -1, ready: 1, pending: 0xffff };
    let mut stack = Stack::new(0, vec![record(1)], vec![high]);
    assert_eq!(
        stack.connect("example.test", 80),
        Err(Error::ConnectFailed("tcp_connect", 65535, 0))
    );
}

#[test]
fn flags_are_restored_on_every_path() {
    let scripts: Vec<(i32, Vec<AddressRecord>, Vec<Answer>)> = vec![
        (0, vec![record(1)], vec![ACCEPTED]),
        (0, vec![record(1), record(2)], vec![REFUSED, REFUSED]),
        (0, vec![record(1), record(2)], vec![TIMED_OUT, ACCEPTED]),
        (0, vec![record(1), record(2)], vec![WAIT_FAILED, ACCEPTED]),
        (0, vec![], vec![]),
        (-1, vec![], vec![]),
    ];
    for (code, records, answers) in scripts {
        for flags in [0, 1, 0x40, 0x41, -1] {
            let mut stack = Stack::new(code, records.clone(), answers.clone());
            stack.flags = flags;
            let _ = stack.connect("example.test", 80);
            assert_eq!(stack.flags, flags);
        }
    }
    let mut stack = Stack::new(0, vec![record(1)], vec![ACCEPTED]);
    let _ = stack.connect(&"x".repeat(100), 80);
    assert_eq!(stack.flags, 0x40);
}

#[test]
fn non_blocking_flag_is_added_and_taken_back() {
    let mut stack = Stack::new(0, vec![record(1), record(2)], vec![REFUSED, ACCEPTED]);
    stack.flags = 0x40;
    assert_eq!(stack.connect("example.test", 80), Ok(()));
    assert_eq!(stack.written_flags, vec![0x41, 0x40, 0x41, 0x40]);
}

#[test]
fn each_attempt_resolves_once() {
    let mut stack = Stack::new(0, vec![record(1)], vec![ACCEPTED, ACCEPTED]);
    assert_eq!(stack.connect("example.test", 80), Ok(()));
    assert_eq!(stack.resolutions, 1);
    assert_eq!(stack.connect("example.test", 80), Ok(()));
    assert_eq!(stack.resolutions, 2);
    assert_eq!(stack.releases, 2);
    assert_eq!(stack.names.len(), 2);
    assert_eq!(stack.names[0], stack.names[1]);
}

#[test]
fn candidates_carry_the_port_in_network_order() {
    let mut stack = Stack::new(0, vec![AddressRecord {
        length: 16,
        family: 2,
        port: 9,
        address: 0x0a00_0001,
    }], vec![ACCEPTED]);
    assert_eq!(stack.connect("example.test", 8080), Ok(()));
    assert_eq!(
        stack.addresses,
        vec![SocketAddress { length: 16, family: 2, port: 0x901f, address: 0x0a00_0001 }]
    );
}

#[test]
fn event_that_answers_nothing_is_ignored() {
    let socket = open();
    let attempt = socket.connect("example.test", 80, 7);
    let attempt = attempt.step(Event::FlagsSet);
    let attempt = attempt.step(Event::LastError(4));
    match attempt.action() {
        Action::Resolve { hostname, .. } => assert_eq!(hostname, b"example.test\0".to_vec()),
        other => panic!("unexpected action {:?}", other),
    }
    let attempt = attempt.step(Event::Resolved { code: 0, chain: vec![record(1)] });
    assert_eq!(attempt.action(), Action::GetFlags { descriptor: 3 });
    let attempt = attempt.step(Event::Released);
    assert_eq!(attempt.action(), Action::GetFlags { descriptor: 3 });
    let attempt = attempt.step(Event::Flags(8));
    assert_eq!(attempt.action(), Action::SetFlags { descriptor: 3, flags: 9 });
}

#[test]
fn finished_attempt_stays_finished() {
    let socket = open();
    let mut attempt = socket.connect("example.test", 80, 7);
    attempt = attempt.step(Event::Resolved { code: 0, chain: vec![] });
    assert_eq!(attempt.action(), Action::ReadLastError);
    assert!(!attempt.is_finished());
    attempt = attempt.step(Event::LastError(12));
    assert!(attempt.is_finished());
    let done = Action::Done(Err(Error::ResolutionFailed("tcp_connect", 0, 12)));
    assert_eq!(attempt.action(), done);
    attempt = attempt.step(Event::Flags(1));
    attempt = attempt.step(Event::Resolved { code: 0, chain: vec![record(1)] });
    assert!(attempt.is_finished());
    assert_eq!(attempt.action(), done);
}

#[test]
fn asking_for_the_action_twice_gives_it_twice() {
    let socket = open();
    assert_eq!(socket.get_fd(), 3);
    let attempt = socket.connect("example.test", 80, 7);
    assert_eq!(attempt.action(), attempt.action());
}
