use std::time::Duration;
use uptimed::config::{AdditionalRequestHeader, Configuration};
use uptimed::probe::{Alert, TransportOutcome};
use uptimed::request::ProbeRequest;
use uptimed::scan::{Scan, ScanAction, ScanError, ScanEvent};
use uptimed::status::HttpStatus;

fn config(request_secs: u64, headers: &[(&str, &str)]) -> Configuration {
    Configuration {
        targets_path: String::from("targets"),
        request_interval: Duration::from_secs(request_secs),
        scan_interval: Duration::from_secs(900),
        custom_headers: headers
            .iter()
            .map(|(name, value)| AdditionalRequestHeader {
                name: String::from(*name),
                value: String::from(*value),
            })
            .collect(),
    }
}

fn targets(count: usize) -> Vec<String> {
    (1..=count).map(|i| format!("http://host{}/", i)).collect()
}

fn response(code: u16) -> TransportOutcome {
    TransportOutcome::Response(HttpStatus::new(code).unwrap())
}

// Drives a scan to its end. The probe of the target with index `i` is
// answered with `probes[i]`, and an alert for it with `sink[i]`. Gives back
// every action that the scan asked for, the last included.
fn drive(
    mut scan: Scan,
    probes: &[TransportOutcome],
    sink: &[Result<(), String>],
) -> Vec<ScanAction> {
    let mut actions = Vec::new();
    let mut probed = 0;
    loop {
        let action = scan.pending();
        let event = match &action {
            ScanAction::Probe(_) => {
                probed += 1;
                ScanEvent::Probed(probes[probed - 1])
            }
            ScanAction::Notify(_) => ScanEvent::Notified(sink[probed - 1].clone()),
            ScanAction::Pause(_) => ScanEvent::Paused,
            ScanAction::Finish(_) => {
                actions.push(action);
                assert!(scan.is_finished());
                return actions;
            }
        };
        assert!(!scan.is_finished());
        actions.push(action);
        scan.advance(event);
        assert!(actions.len() < 10_000);
    }
}

fn probed_urls(actions: &[ScanAction]) -> Vec<String> {
    actions
        .iter()
        .filter_map(|action| match action {
            ScanAction::Probe(request) => Some(request.url.clone()),
            _ => None,
        })
        .collect()
}

fn alerts(actions: &[ScanAction]) -> Vec<Alert> {
    actions
        .iter()
        .filter_map(|action| match action {
            ScanAction::Notify(alert) => Some(alert.clone()),
            _ => None,
        })
        .collect()
}

fn pauses(actions: &[ScanAction]) -> Vec<Duration> {
    actions
        .iter()
        .filter_map(|action| match action {
            ScanAction::Pause(delay) => Some(*delay),
            _ => None,
        })
        .collect()
}

#[test]
fn a_scan_probes_every_target_and_pauses_between_them() {
    let list = targets(4);
    let scan = Scan::begin(Ok(list.clone()), &config(3, &[]));
    let probes = [response(200), response(503), TransportOutcome::Error(None), response(204)];
    let sink = [Ok(()), Ok(()), Ok(()), Ok(())];
    let actions = drive(scan, &probes, &sink);
    assert_eq!(probed_urls(&actions), list);
    assert_eq!(pauses(&actions), vec![Duration::from_secs(3); 3]);
    assert_eq!(actions.last(), Some(&ScanAction::Finish(Ok(()))));
}

#[test]
fn the_whole_course_of_a_scan() {
    let list = targets(3);
    let scan = Scan::begin(Ok(list.clone()), &config(2, &[("A", "1")]));
    let probes = [response(200), response(500), response(200)];
    let sink = [Ok(()), Ok(()), Ok(())];
    let actions = drive(scan, &probes, &sink);
    let headers =
        vec![AdditionalRequestHeader { name: String::from("A"), value: String::from("1") }];
    let request = |i: usize| {
        ScanAction::Probe(ProbeRequest { url: list[i].clone(), headers: headers.clone() })
    };
    assert_eq!(
        actions,
        vec![
            request(0),
            ScanAction::Pause(Duration::from_secs(2)),
            request(1),
            ScanAction::Notify(Alert {
                summary: String::from("http://host2/ is down!"),
                body: String::from("Responded with status code: 500 Internal Server Error"),
            }),
            ScanAction::Pause(Duration::from_secs(2)),
            request(2),
            ScanAction::Finish(Ok(())),
        ]
    );
}

#[test]
fn a_pause_stands_between_each_two_requests() {
    let scan = Scan::begin(Ok(targets(5)), &config(1, &[]));
    let probes = [response(500); 5];
    let sink = vec![Ok(()); 5];
    let actions = drive(scan, &probes, &sink);
    let cadence: Vec<&ScanAction> = actions
        .iter()
        .filter(|action| matches!(action, ScanAction::Probe(_) | ScanAction::Pause(_)))
        .collect();
    assert_eq!(cadence.len(), 9);
    for (i, action) in cadence.iter().enumerate() {
        if i % 2 == 0 {
            assert!(matches!(action, ScanAction::Probe(_)));
        } else {
            assert_eq!(**action, ScanAction::Pause(Duration::from_secs(1)));
        }
    }
}

#[test]
fn a_scan_without_request_interval_does_not_pause() {
    let list = targets(3);
    let scan = Scan::begin(Ok(list.clone()), &config(0, &[]));
    let actions = drive(scan, &[response(200); 3], &[Ok(()), Ok(()), Ok(())]);
    assert_eq!(probed_urls(&actions), list);
    assert!(pauses(&actions).is_empty());
    assert_eq!(actions.len(), 4);
}

#[test]
fn a_scan_pauses_for_a_fraction_of_a_second() {
    let mut settings = config(0, &[]);
    settings.request_interval = Duration::from_millis(250);
    let scan = Scan::begin(Ok(targets(2)), &settings);
    let actions = drive(scan, &[response(200); 2], &[Ok(()), Ok(())]);
    assert_eq!(pauses(&actions), vec![Duration::from_millis(250)]);
}

#[test]
fn a_scan_of_one_target_does_not_pause() {
    let scan = Scan::begin(Ok(targets(1)), &config(5, &[]));
    let actions = drive(scan, &[response(404)], &[Ok(())]);
    assert_eq!(probed_urls(&actions).len(), 1);
    assert!(pauses(&actions).is_empty());
    assert_eq!(alerts(&actions).len(), 1);
    assert_eq!(actions.last(), Some(&ScanAction::Finish(Ok(()))));
}

#[test]
fn a_scan_of_no_targets_finishes_at_once() {
    let scan = Scan::begin(Ok(Vec::new()), &config(5, &[]));
    assert!(scan.is_finished());
    assert_eq!(scan.pending(), ScanAction::Finish(Ok(())));
}

#[test]
fn a_target_that_answers_200_raises_no_alert() {
    let scan = Scan::begin(Ok(targets(1)), &config(0, &[]));
    let actions = drive(scan, &[response(200)], &[Ok(())]);
    assert!(alerts(&actions).is_empty());
    assert_eq!(actions.last(), Some(&ScanAction::Finish(Ok(()))));
}

#[test]
fn a_target_that_answers_503_raises_one_alert_that_names_503() {
    let scan = Scan::begin(Ok(vec![String::from("https://down.example")]), &config(0, &[]));
    let actions = drive(scan, &[response(503)], &[Ok(())]);
    let raised = alerts(&actions);
    assert_eq!(raised.len(), 1);
    assert!(raised[0].body.contains("503"));
    assert_eq!(raised[0].summary, "https://down.example is down!");
    assert_eq!(raised[0].body, "Responded with status code: 503 Service Unavailable");
}

#[test]
fn alerts_are_raised_for_the_failing_targets_only() {
    let list = targets(5);
    let scan = Scan::begin(Ok(list), &config(1, &[]));
    let probes = [
        response(200),
        response(404),
        response(201),
        TransportOutcome::Error(None),
        TransportOutcome::Error(Some(HttpStatus::new(502).unwrap())),
    ];
    let actions = drive(scan, &probes, &vec![Ok(()); 5]);
    let summaries: Vec<String> = alerts(&actions).into_iter().map(|a| a.summary).collect();
    assert_eq!(
        summaries,
        vec!["http://host2/ is down!", "http://host4/ is down!", "http://host5/ is down!"]
    );
    let bodies: Vec<String> = alerts(&actions).into_iter().map(|a| a.body).collect();
    assert_eq!(
        bodies,
        vec![
            "Responded with status code: 404 Not Found",
            "Responded with status code: 404 Not Found",
            "Responded with status code: 502 Bad Gateway",
        ]
    );
}

#[test]
fn an_unreadable_target_list_fails_the_scan_without_alert() {
    let scan = Scan::begin(Err(String::from("No such file or directory")), &config(1, &[]));
    assert!(scan.is_finished());
    let actions = drive(scan, &[], &[]);
    assert_eq!(
        actions,
        vec![ScanAction::Finish(Err(ScanError::TargetSource(String::from(
            "No such file or directory"
        ))))]
    );
    assert!(alerts(&actions).is_empty());
    assert!(probed_urls(&actions).is_empty());
}

#[test]
fn a_failing_alert_sink_on_the_second_of_five_targets_ends_the_scan() {
    let list = targets(5);
    let scan = Scan::begin(Ok(list.clone()), &config(1, &[]));
    let probes = [response(200), response(500), response(200), response(500), response(200)];
    let sink = [
        Ok(()),
        Err(String::from("no notification daemon")),
        Ok(()),
        Ok(()),
        Ok(()),
    ];
    let actions = drive(scan, &probes, &sink);
    assert_eq!(probed_urls(&actions), list[..2].to_vec());
    assert_eq!(alerts(&actions).len(), 1);
    assert_eq!(pauses(&actions).len(), 1);
    assert_eq!(
        actions.last(),
        Some(&ScanAction::Finish(Err(ScanError::AlertSink(String::from(
            "no notification daemon"
        )))))
    );
}

#[test]
fn a_failing_target_does_not_end_the_scan() {
    let list = targets(3);
    let scan = Scan::begin(Ok(list.clone()), &config(0, &[]));
    let actions = drive(scan, &[TransportOutcome::Error(None); 3], &vec![Ok(()); 3]);
    assert_eq!(probed_urls(&actions), list);
    assert_eq!(alerts(&actions).len(), 3);
    assert_eq!(actions.last(), Some(&ScanAction::Finish(Ok(()))));
}

#[test]
fn repeated_headers_are_both_sent_in_their_order_with_every_request() {
    let settings = config(0, &[("Authorization", "Bearer X"), ("Authorization", "Bearer Y")]);
    let scan = Scan::begin(Ok(targets(3)), &settings);
    let actions = drive(scan, &[response(200), response(500), response(200)], &vec![Ok(()); 3]);
    let mut requests = 0;
    for action in &actions {
        if let ScanAction::Probe(request) = action {
            requests += 1;
            let sent: Vec<(&str, &str)> = request
                .headers
                .iter()
                .map(|header| (header.name.as_str(), header.value.as_str()))
                .collect();
            assert_eq!(sent, vec![("Authorization", "Bearer X"), ("Authorization", "Bearer Y")]);
        }
    }
    assert_eq!(requests, 3);
}

#[test]
fn an_empty_target_is_probed_as_it_is() {
    let list = vec![String::from("http://a"), String::new(), String::from("http://b")];
    let scan = Scan::begin(Ok(list.clone()), &config(0, &[]));
    let actions = drive(scan, &[response(200); 3], &vec![Ok(()); 3]);
    assert_eq!(probed_urls(&actions), list);
}

#[test]
fn the_pending_action_does_not_change_by_asking() {
    let scan = Scan::begin(Ok(targets(2)), &config(1, &[("A", "1")]));
    assert_eq!(scan.pending(), scan.pending());
    assert!(matches!(scan.pending(), ScanAction::Probe(_)));
}

#[test]
fn an_event_out_of_turn_is_ignored() {
    let mut scan = Scan::begin(Ok(targets(2)), &config(1, &[]));
    let first = scan.pending();
    scan.advance(ScanEvent::Paused);
    assert_eq!(scan.pending(), first);
    scan.advance(ScanEvent::Notified(Err(String::from("x"))));
    assert_eq!(scan.pending(), first);
    scan.advance(ScanEvent::Probed(response(500)));
    let alert = scan.pending();
    assert!(matches!(alert, ScanAction::Notify(_)));
    scan.advance(ScanEvent::Probed(response(200)));
    scan.advance(ScanEvent::Paused);
    assert_eq!(scan.pending(), alert);
    scan.advance(ScanEvent::Notified(Ok(())));
    let pause = scan.pending();
    assert_eq!(pause, ScanAction::Pause(Duration::from_secs(1)));
    scan.advance(ScanEvent::Notified(Ok(())));
    scan.advance(ScanEvent::Probed(response(200)));
    assert_eq!(scan.pending(), pause);
}

#[test]
fn a_finished_scan_stays_finished() {
    let mut scan = Scan::begin(Ok(targets(1)), &config(1, &[]));
    scan.advance(ScanEvent::Probed(response(200)));
    assert!(scan.is_finished());
    scan.advance(ScanEvent::Probed(response(500)));
    scan.advance(ScanEvent::Paused);
    scan.advance(ScanEvent::Notified(Err(String::from("late"))));
    assert!(scan.is_finished());
    assert_eq!(scan.pending(), ScanAction::Finish(Ok(())));
}
