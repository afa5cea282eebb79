use std::time::{Duration, Instant};

use db_healthcheck::health::ProbeOutcome;
use db_healthcheck::response::{db_healthcheck_handler, BodyField};

fn runtime() -> tokio::runtime::Runtime {
    tokio::runtime::Builder::new_multi_thread()
        .worker_threads(4)
        .enable_time()
        .build()
        .expect("a runtime")
}

#[test]
fn stalled_probe_is_answered_with_a_timeout_at_the_deadline() {
    let deadline = Duration::from_millis(200);
    let started = Instant::now();
    let raced = runtime().block_on(async {
        tokio::time::timeout(deadline, std::future::pending::<Result<(), String>>()).await
    });
    let waited = started.elapsed();
    let outcome = match raced {
        Ok(Ok(())) => ProbeOutcome::Completed,
        Ok(Err(detail)) => ProbeOutcome::Failed(detail),
        Err(elapsed) => ProbeOutcome::TimedOut(elapsed.to_string()),
    };
    let response = db_healthcheck_handler(outcome);
    assert!(waited >= deadline);
    assert!(waited < Duration::from_secs(5));
    assert_eq!(response.status, 200);
    assert_eq!(response.field, BodyField::Error);
    assert_eq!(response.text, "❌ DB check timeout: deadline has elapsed");
    assert_eq!(
        response.body_json(),
        "{\"error\":\"❌ DB check timeout: deadline has elapsed\"}"
    );
}

#[test]
fn probe_that_finishes_in_time_is_not_a_timeout() {
    let raced = runtime().block_on(async {
        tokio::time::timeout(Duration::from_secs(5), std::future::ready(Ok::<(), String>(())))
            .await
    });
    let outcome = match raced {
        Ok(Ok(())) => ProbeOutcome::Completed,
        Ok(Err(detail)) => ProbeOutcome::Failed(detail),
        Err(elapsed) => ProbeOutcome::TimedOut(elapsed.to_string()),
    };
    let response = db_healthcheck_handler(outcome);
    assert_eq!(response.field, BodyField::Message);
    assert_eq!(response.body_json(), "{\"message\":\"Hello World with DB!\"}");
}

#[test]
fn fifty_requests_at_once_get_their_own_answers() {
    let answers = runtime().block_on(async {
        let mut tasks = Vec::new();
        for request in 0..50u32 {
            tasks.push(tokio::spawn(async move {
                let outcome = match request % 3 {
                    0 => ProbeOutcome::Completed,
                    1 => ProbeOutcome::Failed(format!("fault of request {}", request)),
                    _ => ProbeOutcome::TimedOut(format!("expiry of request {}", request)),
                };
                (request, db_healthcheck_handler(outcome))
            }));
        }
        let mut answers = Vec::new();
        for task in tasks {
            answers.push(task.await.expect("the request was handled"));
        }
        answers
    });
    assert_eq!(answers.len(), 50);
    for (request, response) in answers {
        assert_eq!(response.status, 200);
        let body = response.body_json();
        match request % 3 {
            0 => assert_eq!(body, "{\"message\":\"Hello World with DB!\"}"),
            1 => assert_eq!(
                body,
                format!("{{\"error\":\"❌ DB error: fault of request {}\"}}", request)
            ),
            _ => assert_eq!(
                body,
                format!("{{\"error\":\"❌ DB check timeout: expiry of request {}\"}}", request)
            ),
        }
    }
}
