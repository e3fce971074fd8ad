use raylib_lua::geometry::LuaColor;
use raylib_lua::session::{DrawCommand, ProtocolError, ResourceSlot, SessionController};

fn black() -> LuaColor {
    LuaColor { r: 0, g: 0, b: 0, a: 255 }
}

#[test]
fn slot_starts_empty_and_round_trips() {
    let mut slot: ResourceSlot<u64> = ResourceSlot::new();
    assert!(!slot.is_occupied());
    slot.put(11);
    assert!(slot.is_occupied());
    assert_eq!(slot.peek(), Some(11));
    assert_eq!(slot.take(), Some(11));
    assert!(!slot.is_occupied());
    assert_eq!(slot.take(), None);
}

#[test]
fn session_empty_before_begin_and_after_end() {
    let mut c: SessionController<u64> = SessionController::new();
    assert!(!c.is_open());
    assert!(c.begin(7).is_ok());
    assert!(c.is_open());
    assert_eq!(c.current(), Some(7));
    assert_eq!(c.end(), Some(7));
    assert!(!c.is_open());
    assert_eq!(c.current(), None);
}

#[test]
fn second_begin_is_rejected_not_overwritten() {
    let mut c: SessionController<u64> = SessionController::new();
    assert!(c.begin(7).is_ok());
    let refused = c.begin(9);
    match refused {
        Err((ProtocolError::SessionAlreadyOpen, handle)) => assert_eq!(handle, 9),
        Ok(()) => panic!("overlapping session accepted"),
    }
    // the live session's handle is untouched
    assert_eq!(c.current(), Some(7));
    assert_eq!(c.end(), Some(7));
}

#[test]
fn end_is_idempotent_and_releases_once() {
    let mut c: SessionController<u64> = SessionController::new();
    assert!(c.begin(3).is_ok());
    assert_eq!(c.end(), Some(3));
    // a second close finds nothing: the handle is never released twice
    assert_eq!(c.end(), None);
    assert_eq!(c.end(), None);
}

#[test]
fn run_scoped_closes_on_success() {
    let mut c: SessionController<u64> = SessionController::new();
    let out = c.run_scoped(5, |s: &SessionController<u64>| -> Result<(), String> {
        assert!(s.is_open());
        assert_eq!(s.current(), Some(5));
        Ok(())
    });
    match out {
        Ok((handle, result)) => {
            assert_eq!(handle, 5);
            assert!(result.is_ok());
        }
        Err(_) => panic!("run_scoped refused an empty slot"),
    }
    assert!(!c.is_open());
}

#[test]
fn run_scoped_closes_when_callback_fails() {
    let mut c: SessionController<u64> = SessionController::new();
    let out = c.run_scoped(5, |_s: &SessionController<u64>| -> Result<(), String> {
        Err(String::from("script error"))
    });
    match out {
        Ok((handle, result)) => {
            // the handle still comes back for release, exactly once
            assert_eq!(handle, 5);
            assert_eq!(result, Err(String::from("script error")));
        }
        Err(_) => panic!("run_scoped refused an empty slot"),
    }
    // the slot is empty again although the callback failed
    assert!(!c.is_open());
}

#[test]
fn run_scoped_refuses_over_open_session() {
    let mut c: SessionController<u64> = SessionController::new();
    assert!(c.begin(7).is_ok());
    let out = c.run_scoped(9, |_s: &SessionController<u64>| -> Result<(), String> {
        panic!("callback must not run");
    });
    match out {
        Err((ProtocolError::SessionAlreadyOpen, handle)) => assert_eq!(handle, 9),
        Ok(_) => panic!("overlapping run_scoped accepted"),
    }
    assert_eq!(c.current(), Some(7));
}

#[test]
fn dispatch_with_empty_slot_is_silent_noop() {
    // the test double: a list recording every call forwarded to the
    // rendering library
    let mut forwarded: Vec<(u64, DrawCommand)> = Vec::new();
    let c: SessionController<u64> = SessionController::new();
    let cmd = DrawCommand::Pixel { x: 1, y: 2, color: black() };
    if let Some(call) = c.dispatch(cmd) {
        forwarded.push(call);
    }
    // nothing raised, nothing forwarded
    assert!(forwarded.is_empty());
}

#[test]
fn dispatch_with_open_session_forwards_on_the_handle() {
    let mut c: SessionController<u64> = SessionController::new();
    assert!(c.begin(42).is_ok());
    let cmd = DrawCommand::Text {
        text: String::from("hi"),
        x: 1,
        y: 2,
        size: 20,
        color: black(),
    };
    let call = c.dispatch(cmd.clone());
    assert_eq!(call, Some((42, cmd)));
}

#[test]
fn dispatch_all_keeps_issue_order() {
    let mut c: SessionController<u64> = SessionController::new();
    assert!(c.begin(1).is_ok());
    let cmds = vec![
        DrawCommand::ClearBackground { color: black() },
        DrawCommand::Pixel { x: 1, y: 2, color: black() },
        DrawCommand::Line { x1: 0, y1: 0, x2: 3, y2: 4, color: black() },
    ];
    let out = c.dispatch_all(cmds.clone());
    assert_eq!(out.len(), 3);
    for (i, (handle, cmd)) in out.iter().enumerate() {
        assert_eq!(*handle, 1);
        assert_eq!(*cmd, cmds[i]);
    }
}

#[test]
fn dispatch_all_with_empty_slot_forwards_nothing() {
    let c: SessionController<u64> = SessionController::new();
    let cmds = vec![
        DrawCommand::ClearBackground { color: black() },
        DrawCommand::Pixel { x: 1, y: 2, color: black() },
    ];
    let out = c.dispatch_all(cmds);
    assert!(out.is_empty());
}
