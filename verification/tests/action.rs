use std::cell::{Cell, RefCell};

use notify_rust::{ActionResponse, ActionResponseHandler, CloseHandler, CloseReason, UserResponse};

#[test]
fn close_reason_from_assigned_codes() {
    assert_eq!(CloseReason::from(1u32), CloseReason::Expired);
    assert_eq!(CloseReason::from(2u32), CloseReason::Dismissed);
    assert_eq!(CloseReason::from(3u32), CloseReason::CloseAction);
}

#[test]
fn close_reason_from_other_codes_keeps_code() {
    assert_eq!(CloseReason::from(0u32), CloseReason::Other(0));
    assert_eq!(CloseReason::from(4u32), CloseReason::Other(4));
    assert_eq!(CloseReason::from(u32::MAX), CloseReason::Other(u32::MAX));
}

#[test]
fn close_reason_into() {
    let reason: CloseReason = 2u32.into();
    assert_eq!(reason, CloseReason::Dismissed);
}

#[test]
fn close_reason_distinct_codes_stay_distinct() {
    let codes = [0u32, 1, 2, 3, 4, 5, 100, u32::MAX];
    for a in codes {
        for b in codes {
            assert_eq!(CloseReason::from(a) == CloseReason::from(b), a == b);
        }
    }
}

#[test]
fn user_response_default_action() {
    assert!(UserResponse::Action("default".to_string()).is_default_action());
    assert!(!UserResponse::Action("Default".to_string()).is_default_action());
    assert!(!UserResponse::Action("default ".to_string()).is_default_action());
    assert!(!UserResponse::Action(String::new()).is_default_action());
    assert!(!UserResponse::Action("clicked_a".to_string()).is_default_action());
    assert!(!UserResponse::Reply("default".to_string()).is_default_action());
    assert!(!UserResponse::Closed(CloseReason::Dismissed).is_default_action());
}

#[test]
fn action_response_default_action() {
    assert!(ActionResponse::Action("default".to_string()).is_default_action());
    assert!(!ActionResponse::Action("defaults".to_string()).is_default_action());
    assert!(!ActionResponse::Action("clicked_b".to_string()).is_default_action());
    assert!(!ActionResponse::Reply("default".to_string()).is_default_action());
    assert!(!ActionResponse::Closed(CloseReason::Other(7)).is_default_action());
}

#[test]
fn action_response_from_string() {
    let response = ActionResponse::from("clicked_a".to_string());
    assert_eq!(response, ActionResponse::Action("clicked_a".to_string()));
    assert!(!response.is_default_action());
}

#[test]
fn action_response_from_str() {
    let response = ActionResponse::from("clicked_c");
    assert_eq!(response, ActionResponse::Action("clicked_c".to_string()));
    let response: ActionResponse = "default".into();
    assert!(response.is_default_action());
}

#[test]
fn action_response_from_str_and_string_agree() {
    assert_eq!(ActionResponse::from("reply"), ActionResponse::from("reply".to_string()));
    assert_eq!(ActionResponse::from(""), ActionResponse::from(String::new()));
}

#[test]
fn action_response_handler_receives_response() {
    let seen = RefCell::new(None);
    let response = ActionResponse::Reply("hello".to_string());
    let handler = |r: &ActionResponse| {
        *seen.borrow_mut() = Some(r.clone());
    };
    handler.call(&response);
    assert_eq!(seen.into_inner(), Some(ActionResponse::Reply("hello".to_string())));
}

#[test]
fn close_handler_with_reason() {
    let seen = Cell::new(None);
    let handler = |reason: CloseReason| seen.set(Some(reason));
    CloseHandler::<CloseReason>::call(&handler, CloseReason::Expired);
    assert_eq!(seen.get(), Some(CloseReason::Expired));
}

#[test]
fn close_handler_without_reason() {
    let calls = Cell::new(0u32);
    let handler = || calls.set(calls.get() + 1);
    CloseHandler::<()>::call(&handler, CloseReason::Other(9));
    CloseHandler::<()>::call(&handler, CloseReason::Dismissed);
    assert_eq!(calls.get(), 2);
}
