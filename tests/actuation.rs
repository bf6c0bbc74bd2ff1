use std::sync::{Arc, Mutex};
use std::time::Instant;

use astra_remote::action::{translate_key, ClickKind, InputAction, ScrollAxis};
use astra_remote::actuator::{plan, Actuator, DeviceStep, InputDevice, MouseButton};
use astra_remote::error::ErrorKind;
use astra_remote::keys::KeyId;
use astra_remote::log::ActivityLog;
use astra_remote::server::{
    execute_intent, handle_click, handle_key, handle_mouse, handle_scroll, health, open_app_result, respond,
    LaunchOutcome,
};
use astra_remote::voice::{parse_voice, Intent};

/// Records every step; fails each step from `fail_at` on.
struct Recorder {
    steps: Vec<DeviceStep>,
    spans: Arc<Mutex<Vec<(usize, Instant, Instant)>>>,
    tag: Arc<Mutex<usize>>,
    fail_at: Option<usize>,
}

impl Recorder {
    fn new() -> Recorder {
        Recorder { steps: Vec::new(), spans: Arc::new(Mutex::new(Vec::new())), tag: Arc::new(Mutex::new(0)), fail_at: None }
    }
}

impl InputDevice for Recorder {
    fn perform(&mut self, step: &DeviceStep) -> Result<(), String> {
        let start = Instant::now();
        self.steps.push(step.clone());
        let end = Instant::now();
        let tag = *self.tag.lock().unwrap();
        self.spans.lock().unwrap().push((tag, start, end));
        match self.fail_at {
            Some(n) if self.steps.len() > n => Err("device unavailable".to_string()),
            _ => Ok(()),
        }
    }
}

#[test]
fn plan_double_click_pauses_fifty_ms() {
    assert_eq!(
        plan(&InputAction::Click { kind: ClickKind::Double }),
        vec![DeviceStep::Click(MouseButton::Left), DeviceStep::Pause(50), DeviceStep::Click(MouseButton::Left)]
    );
    assert_eq!(plan(&InputAction::Click { kind: ClickKind::Right }), vec![DeviceStep::Click(MouseButton::Right)]);
}

#[test]
fn plan_modifier_order_ctrl_shift() {
    let action = translate_key("t", &Some(vec!["ctrl".to_string(), "shift".to_string()]));
    assert_eq!(
        plan(&action),
        vec![
            DeviceStep::KeyDown(KeyId::Control),
            DeviceStep::KeyDown(KeyId::Shift),
            DeviceStep::KeyClick(KeyId::Char('t')),
            DeviceStep::KeyUp(KeyId::Control),
            DeviceStep::KeyUp(KeyId::Shift),
        ]
    );
}

#[test]
fn plan_unresolved_key_types_literal() {
    let action = translate_key("Hello", &Some(vec!["alt".to_string()]));
    assert_eq!(
        plan(&action),
        vec![DeviceStep::KeyDown(KeyId::Alt), DeviceStep::Text("Hello".to_string()), DeviceStep::KeyUp(KeyId::Alt)]
    );
}

#[test]
fn scroll_request_end_to_end() {
    let mut act = Actuator::new(Recorder::new());
    let result = handle_scroll(&mut act, "up", Some(3));
    assert_eq!(act.device().steps, vec![DeviceStep::Scroll { axis: ScrollAxis::Vertical, amount: 30 }]);
    let (code, body) = respond(result);
    assert_eq!(code, 200);
    assert_eq!(body.status, "success");
    assert_eq!(body.message, Some("Scrolled".to_string()));
}

#[test]
fn click_triple_is_bad_request() {
    let mut act = Actuator::new(Recorder::new());
    let (code, body) = respond(handle_click(&mut act, "triple"));
    assert_eq!(code, 400);
    assert_eq!(body.status, "error");
    assert_eq!(body.message, Some("Unknown click type: triple".to_string()));
    assert!(act.device().steps.is_empty());
}

#[test]
fn click_and_key_messages() {
    let mut act = Actuator::new(Recorder::new());
    assert_eq!(handle_click(&mut act, "left_click").unwrap(), "left_click performed");
    assert_eq!(handle_key(&mut act, "enter", &None).unwrap(), "Key 'enter' pressed");
    assert_eq!(handle_mouse(&mut act, 3, -4).unwrap(), "Mouse moved");
    assert_eq!(
        act.device().steps,
        vec![
            DeviceStep::Click(MouseButton::Left),
            DeviceStep::KeyClick(KeyId::Return),
            DeviceStep::MoveBy { dx: 3, dy: -4 },
        ]
    );
}

#[test]
fn device_failure_stops_action() {
    let mut rec = Recorder::new();
    rec.fail_at = Some(0);
    let mut act = Actuator::new(rec);
    let e = handle_click(&mut act, "double").unwrap_err();
    assert_eq!(e.kind, ErrorKind::ExecutionFailure);
    assert_eq!(e.message, "device unavailable");
    assert_eq!(e.http_status(), 500);
    assert_eq!(act.device().steps, vec![DeviceStep::Click(MouseButton::Left)]);
}

#[test]
fn sequential_actions_do_not_overlap() {
    let spans = Arc::new(Mutex::new(Vec::new()));
    let current = Arc::new(Mutex::new(0));
    let mut rec = Recorder::new();
    rec.spans = spans.clone();
    rec.tag = current.clone();
    let shared = Arc::new(Mutex::new(Actuator::new(rec)));
    for tag in 1..=2 {
        let mut act = shared.lock().unwrap();
        *current.lock().unwrap() = tag;
        handle_click(&mut act, "double").unwrap();
    }
    let spans = spans.lock().unwrap();
    let tags: Vec<usize> = spans.iter().map(|s| s.0).collect();
    assert_eq!(tags, vec![1, 1, 1, 2, 2, 2]);
    for w in spans.windows(2) {
        assert!(w[0].2 <= w[1].1);
    }
}

#[test]
fn voice_intents_through_actuator() {
    let mut act = Actuator::new(Recorder::new());
    assert_eq!(execute_intent(&mut act, &parse_voice("PAUSE")).unwrap(), "Toggled play/pause");
    assert_eq!(execute_intent(&mut act, &parse_voice("type Hi There")).unwrap(), "Typed: hi there");
    let e = execute_intent(&mut act, &Intent::Unknown("dance".to_string())).unwrap_err();
    assert_eq!(e.kind, ErrorKind::UnknownCommand);
    assert_eq!(e.message, "Unknown voice command: dance");
    assert_eq!(e.http_status(), 400);
    assert_eq!(act.device().steps, vec![DeviceStep::KeyClick(KeyId::Space), DeviceStep::Text("hi there".to_string())]);
}

#[test]
fn open_app_outcomes() {
    assert_eq!(open_app_result("spotify", LaunchOutcome::Opened).unwrap(), "Opened spotify");
    let e = open_app_result("spotify", LaunchOutcome::Failed).unwrap_err();
    assert_eq!(e.kind, ErrorKind::ExecutionFailure);
    assert_eq!(e.message, "Failed to open spotify");
    let e = open_app_result("x", LaunchOutcome::NotStarted("No such file".to_string())).unwrap_err();
    assert_eq!(e.message, "Failed to run open command: No such file");
    assert_eq!(respond(Err(e)).0, 500);
}

#[test]
fn health_body() {
    let r = health();
    assert_eq!(r.status, "ok");
    assert_eq!(r.message, Some("Astra Gesture Control Server - Rust Edition".to_string()));
}

#[test]
fn activity_log_keeps_ten_newest() {
    let mut log = ActivityLog::new();
    for i in 0..12 {
        log.add(format!("00:00:{:02}", i), format!("command {}", i));
    }
    assert_eq!(log.len(), 10);
    assert_eq!(log.get(0).command, "command 11");
    assert_eq!(log.get(0).timestamp, "00:00:11");
    assert_eq!(log.get(9).command, "command 2");
}

#[test]
fn concurrent_mouse_moves_do_not_interleave() {
    let spans = Arc::new(Mutex::new(Vec::new()));
    let mut rec = Recorder::new();
    rec.spans = spans.clone();
    let shared = Arc::new(Mutex::new(Actuator::new(rec)));
    let runtime = tokio::runtime::Builder::new_multi_thread().worker_threads(2).build().unwrap();
    runtime.block_on(async {
        let requests: Vec<_> = (0..2)
            .map(|n| {
                let shared = shared.clone();
                tokio::spawn(async move {
                    let mut act = shared.lock().unwrap();
                    handle_mouse(&mut act, n + 1, -(n + 1))
                })
            })
            .collect();
        for r in requests {
            assert_eq!(r.await.unwrap().unwrap(), "Mouse moved");
        }
    });
    let act = shared.lock().unwrap();
    let steps = &act.device().steps;
    assert_eq!(steps.len(), 2);
    assert!(steps.contains(&DeviceStep::MoveBy { dx: 1, dy: -1 }));
    assert!(steps.contains(&DeviceStep::MoveBy { dx: 2, dy: -2 }));
    let spans = spans.lock().unwrap();
    assert_eq!(spans.len(), 2);
    assert!(spans[0].2 <= spans[1].1);
}

#[test]
fn key_message_echoes_name_as_sent() {
    let mut act = Actuator::new(Recorder::new());
    let (code, body) = respond(handle_key(&mut act, "Enter", &None));
    assert_eq!(code, 200);
    assert_eq!(body.message, Some("Key 'Enter' pressed".to_string()));
    assert_eq!(act.device().steps, vec![DeviceStep::KeyClick(KeyId::Return)]);
}

#[test]
fn scroll_down_default_amount_answers_200() {
    let mut act = Actuator::new(Recorder::new());
    let (code, body) = respond(handle_scroll(&mut act, "down", None));
    assert_eq!(code, 200);
    assert_eq!(body.message, Some("Scrolled".to_string()));
    assert_eq!(act.device().steps, vec![DeviceStep::Scroll { axis: ScrollAxis::Vertical, amount: -10 }]);
}
