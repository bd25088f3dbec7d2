use uring_read::completion::CompletionResult;
use uring_read::error::ReadError;
use uring_read::request::ReadRequest;
use uring_read::session::{Action, Event, Phase};
use uring_read::trace::replay;

fn happy(code: i32) -> Vec<Event> {
    vec![
        Event::Start,
        Event::FileOpened { fd: 3 },
        Event::RingCreated,
        Event::Pushed,
        Event::Driven,
        Event::Completion { result: CompletionResult { tag: 0xdead_beef, code } },
    ]
}

#[test]
fn replay_of_nothing_is_idle() {
    let (session, asked) = replay(&Vec::new());
    assert_eq!(session.phase(), Phase::Idle);
    assert!(asked.is_empty());
}

#[test]
fn replay_of_a_whole_read() {
    let (session, asked) = replay(&happy(300));
    assert_eq!(session.outcome(), Some(Ok(300)));
    assert_eq!(
        asked,
        vec![
            Action::OpenFile,
            Action::CreateRing { capacity: 8 },
            Action::Enqueue {
                request: ReadRequest { fd: 3, len: 4096, offset: 0, tag: 0xdead_beef }
            },
            Action::Drive { min_completions: 1 },
            Action::TakeCompletion,
            Action::Finish { outcome: Ok(300) },
        ]
    );
}

#[test]
fn replay_skips_refused_events() {
    let events = vec![
        Event::Pushed,
        Event::Start,
        Event::Start,
        Event::FileOpened { fd: 3 },
        Event::NoCompletion,
        Event::RingCreated,
    ];
    let (session, asked) = replay(&events);
    assert_eq!(
        session.phase(),
        Phase::Built { request: ReadRequest::standard(3) }
    );
    assert_eq!(asked.len(), 3);
}

#[test]
fn replay_never_asks_for_more_than_six_actions() {
    let mut events = happy(1);
    events.extend(happy(2));
    events.extend(happy(3));
    let (session, asked) = replay(&events);
    assert_eq!(asked.len(), 6);
    assert_eq!(session.outcome(), Some(Ok(1)));
}

#[test]
fn replay_of_a_failed_open_asks_for_no_ring() {
    let events = vec![
        Event::Start,
        Event::FileOpenFailed { os_code: Some(2) },
        Event::RingCreated,
        Event::Pushed,
    ];
    let (session, asked) = replay(&events);
    assert_eq!(
        session.outcome(),
        Some(Err(ReadError::FileOpen { os_code: Some(2) }))
    );
    assert_eq!(
        asked,
        vec![
            Action::OpenFile,
            Action::Finish { outcome: Err(ReadError::FileOpen { os_code: Some(2) }) },
        ]
    );
    assert!(!asked.iter().any(|a| matches!(a, Action::CreateRing { .. })));
}

#[test]
fn replay_twice_gives_the_same() {
    let events = happy(4096);
    assert_eq!(replay(&events), replay(&events));
}

#[test]
fn replay_keeps_the_leased_request_inside_the_buffer() {
    let events = happy(0);
    for n in 0..events.len() {
        let (session, _) = replay(&events[..n].to_vec());
        if session.buffer_leased() {
            match session.phase() {
                Phase::Enqueued { request } | Phase::Submitted { request } => {
                    assert!(request.len <= 4096);
                    assert_eq!(request.offset, 0);
                    assert_eq!(request.tag, 0xdead_beef);
                }
                other => panic!("leased in {:?}", other),
            }
        }
    }
}
