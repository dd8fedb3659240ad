use std::sync::Arc;
use std::sync::Mutex;

use callback_manager::CallbackHandler;
use callback_manager::CallbackManager;
use callback_manager::CallbackParams;
use callback_manager::DispatchError;

type Sink = Arc<Mutex<Vec<String>>>;

fn new_sink() -> Sink {
    Arc::new(Mutex::new(Vec::new()))
}

fn recorded(sink: &Sink) -> Vec<String> {
    sink.lock().unwrap().clone()
}

fn recording_handler(sink: &Sink, label: &str) -> CallbackHandler<i32> {
    let sink = sink.clone();
    let label = label.to_string();
    CallbackHandler::callback1(move |p1: i32| {
        sink.lock().unwrap().push(format!("{}: {}", label, p1));
    })
}

#[test]
fn all_retained_handles_are_counted() {
    let sink = new_sink();
    let mut manager = CallbackManager::<i32>::new();
    let _h1 = manager.add(recording_handler(&sink, "a"));
    let _h2 = manager.add(recording_handler(&sink, "b"));
    let _h3 = manager.add(recording_handler(&sink, "c"));
    assert_eq!(manager.active_count(), 3);
}

#[test]
fn dropped_handles_leave_the_count() {
    let sink = new_sink();
    let mut manager = CallbackManager::<i32>::new();
    let _h1 = manager.add(recording_handler(&sink, "a"));
    let h2 = manager.add(recording_handler(&sink, "b"));
    let _h3 = manager.add(recording_handler(&sink, "c"));
    let h4 = manager.add(recording_handler(&sink, "d"));
    let _h5 = manager.add(recording_handler(&sink, "e"));
    drop(h2);
    drop(h4);
    assert_eq!(manager.active_count(), 3);
}

#[test]
fn active_count_is_stable_without_changes() {
    let sink = new_sink();
    let mut manager = CallbackManager::<i32>::new();
    let _h1 = manager.add(recording_handler(&sink, "a"));
    let h2 = manager.add(recording_handler(&sink, "b"));
    drop(h2);
    let first = manager.active_count();
    let second = manager.active_count();
    assert_eq!(first, second);
    assert_eq!(first, 1);
}

#[test]
fn count_mismatch_invokes_nothing() {
    let sink = new_sink();
    let mut manager = CallbackManager::<i32>::new();
    let _h1 = manager.add(recording_handler(&sink, "a"));
    let _h2 = manager.add(recording_handler(&sink, "b"));
    let result = manager.run_all(vec![CallbackParams::CallParams1(1)]);
    assert_eq!(result, Err(DispatchError::CountMismatch));
    assert_eq!(recorded(&sink).len(), 0);
}

#[test]
fn shape_mismatch_reports_every_mismatching_position() {
    let sink = new_sink();
    let mut manager = CallbackManager::<i32>::new();
    let _h1 = manager.add(recording_handler(&sink, "a"));
    let _h2 = manager.add(recording_handler(&sink, "b"));
    let _h3 = manager.add(recording_handler(&sink, "c"));
    let result = manager.run_all(vec![
        CallbackParams::CallParams0(),
        CallbackParams::CallParams1(2),
        CallbackParams::CallParams2(3, 4),
    ]);
    assert_eq!(result, Err(DispatchError::ShapeMismatch(2)));
    assert_eq!(
        result.unwrap_err().message(),
        "mismatching params for 2 handlers".to_string()
    );
    assert_eq!(recorded(&sink).len(), 0);
}

#[test]
fn full_match_invokes_each_handler_once_in_order() {
    let sink = new_sink();
    let mut manager = CallbackManager::<i32>::new();
    let _h1 = manager.add(recording_handler(&sink, "first"));
    let _h2 = manager.add(recording_handler(&sink, "second"));
    let _h3 = manager.add(recording_handler(&sink, "third"));
    let result = manager.run_all(vec![
        CallbackParams::CallParams1(10),
        CallbackParams::CallParams1(20),
        CallbackParams::CallParams1(30),
    ]);
    assert_eq!(result, Ok(()));
    assert_eq!(
        recorded(&sink),
        vec![
            "first: 10".to_string(),
            "second: 20".to_string(),
            "third: 30".to_string(),
        ]
    );
}

#[test]
fn empty_registry_accepts_the_empty_batch() {
    let mut manager = CallbackManager::<i32>::new();
    assert_eq!(manager.active_count(), 0);
    assert_eq!(manager.run_all(vec![]), Ok(()));
    assert_eq!(
        manager.run_all(vec![CallbackParams::CallParams0()]),
        Err(DispatchError::CountMismatch)
    );
}

#[test]
fn dispatch_prunes_dead_entries_permanently() {
    let sink = new_sink();
    let mut manager = CallbackManager::<i32>::new();
    let h1 = manager.add(recording_handler(&sink, "a"));
    let _h2 = manager.add(recording_handler(&sink, "b"));
    drop(h1);
    assert_eq!(manager.handlers.len(), 2);
    assert_eq!(manager.active_count(), 1);
    assert_eq!(manager.run_all(vec![CallbackParams::CallParams1(5)]), Ok(()));
    assert_eq!(manager.handlers.len(), 1);
    assert_eq!(recorded(&sink), vec!["b: 5".to_string()]);
}

#[test]
fn every_arity_dispatches_with_its_own_values() {
    let sink = new_sink();
    let mut manager = CallbackManager::<i32>::new();
    let mut handles = Vec::new();

    let s = sink.clone();
    handles.push(manager.add(CallbackHandler::callback0(move || {
        s.lock().unwrap().push("arity0".to_string());
    })));
    let s = sink.clone();
    handles.push(manager.add(CallbackHandler::callback1(move |a: i32| {
        s.lock().unwrap().push(format!("arity1 {}", a));
    })));
    let s = sink.clone();
    handles.push(manager.add(CallbackHandler::callback2(move |a: i32, b: i32| {
        s.lock().unwrap().push(format!("arity2 {} {}", a, b));
    })));
    let s = sink.clone();
    handles.push(manager.add(CallbackHandler::callback3(move |a: i32, b: i32, c: i32| {
        s.lock().unwrap().push(format!("arity3 {} {} {}", a, b, c));
    })));
    let s = sink.clone();
    handles.push(manager.add(CallbackHandler::callback4(
        move |a: i32, b: i32, c: i32, d: i32| {
            s.lock().unwrap().push(format!("arity4 {} {} {} {}", a, b, c, d));
        },
    )));
    let s = sink.clone();
    handles.push(manager.add(CallbackHandler::callback5(
        move |a: i32, b: i32, c: i32, d: i32, e: i32| {
            s.lock()
                .unwrap()
                .push(format!("arity5 {} {} {} {} {}", a, b, c, d, e));
        },
    )));
    let s = sink.clone();
    handles.push(manager.add(CallbackHandler::callback6(
        move |a: i32, b: i32, c: i32, d: i32, e: i32, f: i32| {
            s.lock()
                .unwrap()
                .push(format!("arity6 {} {} {} {} {} {}", a, b, c, d, e, f));
        },
    )));
    let s = sink.clone();
    handles.push(manager.add(CallbackHandler::callback7(
        move |a: i32, b: i32, c: i32, d: i32, e: i32, f: i32, g: i32| {
            s.lock()
                .unwrap()
                .push(format!("arity7 {} {} {} {} {} {} {}", a, b, c, d, e, f, g));
        },
    )));
    let s = sink.clone();
    handles.push(manager.add(CallbackHandler::callback8(
        move |a: i32, b: i32, c: i32, d: i32, e: i32, f: i32, g: i32, h: i32| {
            s.lock()
                .unwrap()
                .push(format!("arity8 {} {} {} {} {} {} {} {}", a, b, c, d, e, f, g, h));
        },
    )));
    let s = sink.clone();
    handles.push(manager.add(CallbackHandler::callback9(
        move |a: i32, b: i32, c: i32, d: i32, e: i32, f: i32, g: i32, h: i32, i: i32| {
            s.lock().unwrap().push(format!(
                "arity9 {} {} {} {} {} {} {} {} {}",
                a, b, c, d, e, f, g, h, i
            ));
        },
    )));
    let s = sink.clone();
    handles.push(manager.add(CallbackHandler::callback10(
        move |a: i32, b: i32, c: i32, d: i32, e: i32, f: i32, g: i32, h: i32, i: i32, j: i32| {
            s.lock().unwrap().push(format!(
                "arity10 {} {} {} {} {} {} {} {} {} {}",
                a, b, c, d, e, f, g, h, i, j
            ));
        },
    )));
    let s = sink.clone();
    handles.push(manager.add(CallbackHandler::callback11(
        move |a: i32,
              b: i32,
              c: i32,
              d: i32,
              e: i32,
              f: i32,
              g: i32,
              h: i32,
              i: i32,
              j: i32,
              k: i32| {
            s.lock().unwrap().push(format!(
                "arity11 {} {} {} {} {} {} {} {} {} {} {}",
                a, b, c, d, e, f, g, h, i, j, k
            ));
        },
    )));
    let s = sink.clone();
    handles.push(manager.add(CallbackHandler::callback12(
        move |a: i32,
              b: i32,
              c: i32,
              d: i32,
              e: i32,
              f: i32,
              g: i32,
              h: i32,
              i: i32,
              j: i32,
              k: i32,
              l: i32| {
            s.lock().unwrap().push(format!(
                "arity12 {} {} {} {} {} {} {} {} {} {} {} {}",
                a, b, c, d, e, f, g, h, i, j, k, l
            ));
        },
    )));

    assert_eq!(manager.active_count(), 13);
    let result = manager.run_all(vec![
        CallbackParams::CallParams0(),
        CallbackParams::CallParams1(1),
        CallbackParams::CallParams2(1, 2),
        CallbackParams::CallParams3(1, 2, 3),
        CallbackParams::CallParams4(1, 2, 3, 4),
        CallbackParams::CallParams5(1, 2, 3, 4, 5),
        CallbackParams::CallParams6(1, 2, 3, 4, 5, 6),
        CallbackParams::CallParams7(1, 2, 3, 4, 5, 6, 7),
        CallbackParams::CallParams8(1, 2, 3, 4, 5, 6, 7, 8),
        CallbackParams::CallParams9(1, 2, 3, 4, 5, 6, 7, 8, 9),
        CallbackParams::CallParams10(1, 2, 3, 4, 5, 6, 7, 8, 9, 10),
        CallbackParams::CallParams11(1, 2, 3, 4, 5, 6, 7, 8, 9, 10, 11),
        CallbackParams::CallParams12(1, 2, 3, 4, 5, 6, 7, 8, 9, 10, 11, 12),
    ]);
    assert_eq!(result, Ok(()));
    assert_eq!(
        recorded(&sink),
        vec![
            "arity0".to_string(),
            "arity1 1".to_string(),
            "arity2 1 2".to_string(),
            "arity3 1 2 3".to_string(),
            "arity4 1 2 3 4".to_string(),
            "arity5 1 2 3 4 5".to_string(),
            "arity6 1 2 3 4 5 6".to_string(),
            "arity7 1 2 3 4 5 6 7".to_string(),
            "arity8 1 2 3 4 5 6 7 8".to_string(),
            "arity9 1 2 3 4 5 6 7 8 9".to_string(),
            "arity10 1 2 3 4 5 6 7 8 9 10".to_string(),
            "arity11 1 2 3 4 5 6 7 8 9 10 11".to_string(),
            "arity12 1 2 3 4 5 6 7 8 9 10 11 12".to_string(),
        ]
    );
}

#[test]
fn error_messages_name_each_failure() {
    assert_eq!(
        DispatchError::CountMismatch.message(),
        "mismatched param counts to active handlers".to_string()
    );
    assert_eq!(
        DispatchError::ShapeMismatch(7).message(),
        "mismatching params for 7 handlers".to_string()
    );
    assert_eq!(
        DispatchError::HandlerDropped.message(),
        "unexpected dropped handler".to_string()
    );
    assert_eq!(
        DispatchError::LockFailed.message(),
        "retrieving mutex guard of handler failure".to_string()
    );
}
