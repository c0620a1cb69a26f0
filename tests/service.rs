use graceful::config::port_from_setting;
use graceful::endpoints::{index, pause, pause_delay, port, shutdown};
use graceful::error::AppError;
use graceful::fanout::{loopback, multi_requests, multi_summary, multi_targets, pause_path};
use graceful::middleware::{error_handler, panic_handler, respond};
use graceful::reply::Reply;
use graceful::router::{not_found, router, Route};
use graceful::shutdown::{drain_report, FireOutcome, Phase, ShutdownCoordinator, TriggerSource};
use graceful::text::{decimal_text, parse_unsigned, same_text};

fn hyper_failure() -> hyper::Error {
    let runtime = tokio::runtime::Builder::new_current_thread().build().unwrap();
    runtime.block_on(async {
        let (sender, body) = hyper::Body::channel();
        sender.abort();
        hyper::body::to_bytes(body).await.unwrap_err()
    })
}

#[test]
fn abnormal_termination_gives_generic_500() {
    let err = panic_handler(Some("Intentional panic from `/panic`".to_string()));
    match &err {
        AppError::ApplicationPanic(d) => assert_eq!(d, "Intentional panic from `/panic`"),
        other => panic!("unexpected {:?}", other),
    }
    let r = respond(Err(err));
    assert_eq!(r.status(), 500);
    assert_eq!(r.body(), "Internal server error");
}

#[test]
fn opaque_payload_uses_placeholder() {
    let err = panic_handler(None);
    assert_eq!(err.description(), "Box<Any>");
    let r = respond(Err(err));
    assert_eq!(r.status(), 500);
    assert_eq!(r.body(), "Internal server error");
}

#[test]
fn application_error_gives_generic_500() {
    let err = AppError::default();
    assert!(matches!(err, AppError::Application));
    assert_eq!(err.description(), "Unspecified application error");
    let r = error_handler(&err);
    assert_eq!((r.status(), r.body()), (500, "Internal server error"));
}

#[test]
fn transport_error_gives_generic_500() {
    let err = AppError::from(hyper_failure());
    assert!(matches!(err, AppError::Hyper(_)));
    assert!(!err.description().is_empty());
    let r = respond(Err(err));
    assert_eq!((r.status(), r.body()), (500, "Internal server error"));
}

#[test]
fn success_passes_through() {
    let r = respond(Ok(Reply::new(201, "made")));
    assert_eq!((r.status(), r.body()), (201, "made"));
}

#[test]
fn two_admin_shutdowns_initiate_once() {
    let mut c = ShutdownCoordinator::new();
    let first = shutdown(&mut c, 10);
    let second = shutdown(&mut c, 20);
    assert_eq!((first.status(), first.body()), (200, "Initiating graceful shutdown"));
    assert_eq!((second.status(), second.body()), (200, "Graceful shutdown already in progress"));
    assert_eq!(c.started_at(), Some(10));
}

#[test]
fn admin_then_signal_records_admin_time() {
    let mut c = ShutdownCoordinator::new();
    assert_eq!(c.fire(TriggerSource::Administrative, 7), FireOutcome::Initiated);
    assert_eq!(c.fire(TriggerSource::Signal, 9), FireOutcome::AlreadyInProgress);
    assert_eq!(c.phase(), Phase::Draining { started_at: 7 });
}

#[test]
fn signal_then_admin_records_signal_time() {
    let mut c = ShutdownCoordinator::new();
    assert_eq!(c.started_at(), None);
    assert_eq!(c.fire(TriggerSource::Signal, 3), FireOutcome::Initiated);
    let r = shutdown(&mut c, 4);
    assert_eq!(r.body(), "Graceful shutdown already in progress");
    assert_eq!(c.fire(TriggerSource::Signal, 5), FireOutcome::AlreadyInProgress);
    assert_eq!(c.started_at(), Some(3));
}

#[test]
fn finish_reports_drain_span() {
    let mut c = ShutdownCoordinator::new();
    assert_eq!(c.finish(5), None);
    assert_eq!(c.phase(), Phase::Idle);
    c.fire(TriggerSource::Signal, 100);
    assert_eq!(c.finish(350), Some(250));
    assert_eq!(c.phase(), Phase::Stopped { started_at: 100, stopped_at: 350 });
    assert_eq!(c.started_at(), Some(100));
    assert_eq!(c.finish(400), None);
}

#[test]
fn drain_report_names_the_span() {
    assert_eq!(drain_report(1_500_000_000), "Server gracefully shutdown, taking 1.5s");
}

#[test]
fn pause_query_100() {
    let millis = pause_delay(Some("100"));
    assert_eq!(millis, 100);
    let r = pause(millis);
    assert_eq!((r.status(), r.body()), (200, "Paused for 100 ms."));
}

#[test]
fn pause_defaults() {
    assert_eq!(pause_delay(None), 500);
    assert_eq!(pause_delay(Some("")), 500);
    assert_eq!(pause_delay(Some("abc")), 500);
    assert_eq!(pause_delay(Some("-5")), 500);
    assert_eq!(pause_delay(Some("+7")), 7);
    assert_eq!(pause_delay(Some("18446744073709551615")), u64::MAX);
    assert_eq!(pause_delay(Some("18446744073709551616")), 500);
    assert_eq!(pause(500).body(), "Paused for 500 ms.");
    assert_eq!(pause(0).body(), "Paused for 0 ms.");
}

#[test]
fn multi_summary_holds_both_bodies() {
    let r = multi_summary(
        5_001_000_000,
        Ok(b"Paused for 1000 ms.".to_vec()),
        Ok(b"Paused for 5000 ms.".to_vec()),
    )
    .unwrap();
    assert_eq!(r.status(), 200);
    assert_eq!(
        r.body(),
        "Total duration: 5.001s, Response 1: Paused for 1000 ms., Response 2: Paused for 5000 ms."
    );
}

#[test]
fn multi_summary_replaces_invalid_bytes() {
    let r = multi_summary(2_000, Ok(vec![b'a', 0xff, b'b']), Ok(Vec::new())).unwrap();
    assert_eq!(r.body(), "Total duration: 2µs, Response 1: a\u{fffd}b, Response 2: ");
}

#[test]
fn multi_summary_first_failure_wins() {
    let r = multi_summary(1, Err(hyper_failure()), Ok(b"late".to_vec()));
    assert!(matches!(r, Err(AppError::Hyper(_))));
    let r = multi_summary(1, Ok(b"early".to_vec()), Err(hyper_failure()));
    assert!(matches!(r, Err(AppError::Hyper(_))));
}

#[test]
fn multi_targets_own_pause_endpoint() {
    assert_eq!(loopback(3000), "127.0.0.1:3000");
    assert_eq!(pause_path(1000), "/pause?1000");
    let (authority, first_path, second_path) = multi_targets(8080);
    assert_eq!(
        (authority.as_str(), first_path.as_str(), second_path.as_str()),
        ("127.0.0.1:8080", "/pause?1000", "/pause?5000")
    );
    let (first, second) = multi_requests(3000).unwrap();
    assert_eq!(first.to_string(), "http://127.0.0.1:3000/pause?1000");
    assert_eq!(second.to_string(), "http://127.0.0.1:3000/pause?5000");
    let (first, _) = multi_requests(0).unwrap();
    assert_eq!(first.to_string(), "http://127.0.0.1:0/pause?1000");
    let (_, second) = multi_requests(65535).unwrap();
    assert_eq!(second.to_string(), "http://127.0.0.1:65535/pause?5000");
}

#[test]
fn unmatched_path_is_not_found() {
    assert_eq!(router("/nope"), Route::NotFound);
    let r = not_found();
    assert_eq!((r.status(), r.body()), (404, "Not found"));
}

#[test]
fn routes_match_exactly() {
    assert_eq!(router("/"), Route::Index);
    assert_eq!(router("/error"), Route::Failure);
    assert_eq!(router("/multi"), Route::Multi);
    assert_eq!(router("/port"), Route::Port);
    assert_eq!(router("/panic"), Route::Panic);
    assert_eq!(router("/pause"), Route::Pause);
    assert_eq!(router("/shutdown"), Route::Shutdown);
    assert_eq!(router("/pause/"), Route::NotFound);
    assert_eq!(router(""), Route::NotFound);
    assert_eq!(router("/Port"), Route::NotFound);
}

#[test]
fn port_defaults_to_3000() {
    assert_eq!(port_from_setting(None), 3000);
    assert_eq!(port_from_setting(Some("abc")), 3000);
    assert_eq!(port_from_setting(Some("65536")), 3000);
    assert_eq!(port_from_setting(Some("8080")), 8080);
    let r = port(port_from_setting(None));
    assert_eq!((r.status(), r.body()), (200, "3000"));
}

#[test]
fn index_greets() {
    let r = index();
    assert_eq!((r.status(), r.body()), (200, "Hello from `/`"));
}

#[test]
fn text_helpers() {
    assert_eq!(decimal_text(0), "0");
    assert_eq!(decimal_text(u64::MAX), "18446744073709551615");
    assert_eq!(parse_unsigned("+", 10), None);
    assert_eq!(parse_unsigned("10", 10), Some(10));
    assert_eq!(parse_unsigned("11", 10), None);
    assert_eq!(parse_unsigned("007", 10), Some(7));
    assert!(same_text("é", "é"));
    assert!(!same_text("ab", "abc"));
}
