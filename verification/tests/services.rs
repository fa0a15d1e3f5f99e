use climb_visitor_scraper::extract::{PageReadings, Reading, Strategy};
use climb_visitor_scraper::fetch::{FetchError, FetchOutcome};
use climb_visitor_scraper::observation::{LocationToken, VisitorCount};
use climb_visitor_scraper::scheduler::Phase;
use climb_visitor_scraper::service::{
    Event, Failure, Input, Notice, Order, Reply, Service, Stage,
};
use climb_visitor_scraper::settings::{FailurePolicy, Settings};
use climb_visitor_scraper::sink::{Backend, SinkCall, SinkError};
use climb_visitor_scraper::timestamp::Timestamp;

fn gyms(n: usize) -> Vec<LocationToken> {
    (0..n)
        .map(|i| LocationToken { location: format!("gym-{}", i), token: format!("token-{}", i) })
        .collect()
}

fn service(n: usize, interval: &str, once: bool, backend: Backend, policy: FailurePolicy) -> Service {
    let mut settings =
        Settings::from_arguments(None, None, None, Some(interval.to_string()), once).unwrap();
    settings.base_url = "http://gyms.test/?token=".to_string();
    settings.backend = backend;
    settings.policy = policy;
    Service::new(&settings, gyms(n))
}

fn page(occupied: i32, free: i32) -> Event {
    let body = format!(
        r#"<div class="actcounter-content"><span>{}</span></div>
           <div class="freecounter-content"><span>{}</span></div>"#,
        occupied, free
    );
    Event::Fetched(FetchOutcome::Answered { status: 200, body: Some(body) })
}

fn expect_fetch(reply: &Reply, token: &str) {
    match &reply.order {
        Order::Fetch { url } => assert_eq!(url, &format!("http://gyms.test/?token={}", token)),
        other => panic!("unexpected order {:?}", other),
    }
}

fn expect_sleep(reply: &Reply, until: u64) {
    match &reply.order {
        Order::Sleep { until: at } => assert_eq!(*at, until),
        other => panic!("unexpected order {:?}", other),
    }
}

fn expect_exit(reply: &Reply, failure: Option<Failure>) {
    match &reply.order {
        Order::Exit { failure: f } => assert_eq!(*f, failure),
        other => panic!("unexpected order {:?}", other),
    }
}

fn expect_continue(reply: &Reply) {
    assert!(matches!(reply.order, Order::Continue), "unexpected order {:?}", reply.order);
    assert!(reply.notice.is_none());
}

fn inserted(reply: &Reply) -> Vec<(String, i32, i32)> {
    match &reply.order {
        Order::Store(SinkCall::InsertMany(docs)) => docs
            .iter()
            .map(|d| {
                (
                    d.get_str("location").unwrap().to_string(),
                    d.get_i32("occupied").unwrap(),
                    d.get_i32("free").unwrap(),
                )
            })
            .collect(),
        other => panic!("unexpected order {:?}", other),
    }
}

fn point(reply: &Reply) -> (String, i32, i32) {
    match &reply.order {
        Order::Store(SinkCall::WritePoint(p)) => {
            assert_eq!(p.measurement, "visitors");
            (p.observation.location().to_string(), p.observation.occupied(), p.observation.free())
        }
        other => panic!("unexpected order {:?}", other),
    }
}

#[test]
fn a_single_run_fetches_every_location_and_writes_once() {
    let mut s = service(2, "60", true, Backend::BatchAppend, FailurePolicy::Halt);
    assert_eq!(s.location_count(), 2);
    assert_eq!(s.stage(), Stage::Resting);
    expect_sleep(&s.step(Event::Start, 0), 60);
    let reply = s.step(Event::Timer, 60);
    expect_fetch(&reply, "token-0");
    assert!(reply.notice.is_none());
    assert_eq!(s.stage(), Stage::Fetching { index: 0 });
    let reply = s.step(page(12, 34), 61);
    expect_fetch(&reply, "token-1");
    match &reply.notice {
        Some(Notice::Observed { line, readings }) => {
            assert!(line.starts_with("(time: "));
            assert!(line.ends_with(", location: gym-0, occupied: 12, free: 34)"));
            assert_eq!(
                *readings,
                PageReadings { occupied: Reading::Value(12), free: Reading::Value(34) }
            );
        }
        other => panic!("unexpected notice {:?}", other),
    }
    assert_eq!(s.batch_len(), 1);
    let reply = s.step(page(5, 6), 62);
    assert_eq!(
        inserted(&reply),
        vec![("gym-0".to_string(), 12, 34), ("gym-1".to_string(), 5, 6)]
    );
    assert_eq!(s.stage(), Stage::Writing { next: 0 });
    assert_eq!(s.batch_len(), 2);
    let reply = s.step(Event::Written(true), 63);
    expect_exit(&reply, None);
    assert!(reply.notice.is_none());
    assert_eq!(s.stage(), Stage::Resting);
    assert_eq!(s.batch_len(), 0);
    assert_eq!(s.scheduler().phase, Phase::Stopped);
    expect_exit(&s.step(Event::Timer, 120), None);
}

#[test]
fn a_single_run_with_interval_zero_runs_one_tick() {
    let mut s = service(1, "0", false, Backend::BatchAppend, FailurePolicy::Halt);
    expect_sleep(&s.step(Event::Start, 5), 5);
    expect_fetch(&s.step(Event::Timer, 5), "token-0");
    assert_eq!(inserted(&s.step(page(1, 2), 5)), vec![("gym-0".to_string(), 1, 2)]);
    expect_exit(&s.step(Event::Written(true), 5), None);
}

#[test]
fn a_repeating_run_makes_one_observation_per_location_in_every_tick() {
    let n = 3;
    let mut s = service(n, "1", false, Backend::BatchAppend, FailurePolicy::Halt);
    expect_sleep(&s.step(Event::Start, 0), 1);
    let mut ticks = 0;
    for now in 1..=2 {
        let mut reply = s.step(Event::Timer, now);
        for i in 0..n {
            expect_fetch(&reply, &format!("token-{}", i));
            reply = s.step(page(i as i32, now as i32), now);
        }
        let records = inserted(&reply);
        assert_eq!(records.len(), n);
        for (i, record) in records.iter().enumerate() {
            assert_eq!(*record, (format!("gym-{}", i), i as i32, now as i32));
        }
        ticks += 1;
        expect_sleep(&s.step(Event::Written(true), now), now + 1);
    }
    assert_eq!(ticks, 2);
}

#[test]
fn a_run_without_locations_still_writes_its_empty_batch() {
    let mut s = service(0, "10", true, Backend::BatchAppend, FailurePolicy::Halt);
    expect_sleep(&s.step(Event::Start, 0), 10);
    assert!(inserted(&s.step(Event::Timer, 10)).is_empty());
    expect_exit(&s.step(Event::Written(true), 10), None);
    let mut s = service(0, "10", false, Backend::PointWrite, FailurePolicy::Halt);
    expect_sleep(&s.step(Event::Start, 0), 10);
    expect_sleep(&s.step(Event::Timer, 10), 20);
}

#[test]
fn a_page_that_cannot_be_fetched_halts_the_run() {
    let mut s = service(2, "10", false, Backend::BatchAppend, FailurePolicy::Halt);
    s.step(Event::Start, 0);
    s.step(Event::Timer, 10);
    s.step(page(1, 2), 10);
    let reply = s.step(Event::Fetched(FetchOutcome::Unreachable), 11);
    expect_exit(&reply, Some(Failure::Fetch(FetchError::Network)));
    match &reply.notice {
        Some(Notice::FetchFailed { location, error }) => {
            assert_eq!(location, "gym-1");
            assert_eq!(*error, FetchError::Network);
        }
        other => panic!("unexpected notice {:?}", other),
    }
    assert_eq!(s.scheduler().phase, Phase::Stopped);
    assert_eq!(s.stage(), Stage::Resting);
    expect_exit(&s.step(Event::Timer, 20), None);
}

#[test]
fn a_page_that_cannot_be_fetched_is_left_out_where_the_run_goes_on() {
    let mut s = service(3, "10", false, Backend::BatchAppend, FailurePolicy::Continue);
    s.step(Event::Start, 0);
    s.step(Event::Timer, 10);
    let refused = Event::Fetched(FetchOutcome::Answered { status: 503, body: Some(String::new()) });
    let reply = s.step(refused, 10);
    expect_fetch(&reply, "token-1");
    assert!(matches!(
        reply.notice,
        Some(Notice::FetchFailed { error: FetchError::Status(503), .. })
    ));
    expect_fetch(&s.step(page(4, 5), 10), "token-2");
    let undecodable = Event::Fetched(FetchOutcome::Answered { status: 200, body: None });
    let reply = s.step(undecodable, 10);
    assert_eq!(inserted(&reply), vec![("gym-1".to_string(), 4, 5)]);
    assert!(matches!(
        reply.notice,
        Some(Notice::FetchFailed { error: FetchError::Undecodable, .. })
    ));
    expect_sleep(&s.step(Event::Written(true), 12), 20);
}

#[test]
fn a_refused_insert_halts_the_run() {
    let mut s = service(1, "10", false, Backend::BatchAppend, FailurePolicy::Halt);
    s.step(Event::Start, 0);
    s.step(Event::Timer, 10);
    s.step(page(1, 2), 10);
    let reply = s.step(Event::Written(false), 11);
    expect_exit(&reply, Some(Failure::Sink(SinkError::Batch { records: 1 })));
    assert!(matches!(reply.notice, Some(Notice::WriteFailed(SinkError::Batch { records: 1 }))));
    assert_eq!(s.scheduler().phase, Phase::Stopped);
}

#[test]
fn a_refused_insert_costs_the_tick_where_the_run_goes_on() {
    let mut s = service(1, "10", false, Backend::BatchAppend, FailurePolicy::Continue);
    s.step(Event::Start, 0);
    s.step(Event::Timer, 10);
    s.step(page(1, 2), 10);
    let reply = s.step(Event::Written(false), 11);
    expect_sleep(&reply, 20);
    assert!(matches!(reply.notice, Some(Notice::WriteFailed(SinkError::Batch { records: 1 }))));
    expect_fetch(&s.step(Event::Timer, 20), "token-0");
    assert_eq!(s.batch_len(), 0);
    assert_eq!(inserted(&s.step(page(3, 4), 20)), vec![("gym-0".to_string(), 3, 4)]);
    expect_sleep(&s.step(Event::Written(true), 21), 30);
}

#[test]
fn points_are_written_one_at_a_time() {
    let mut s = service(3, "10", false, Backend::PointWrite, FailurePolicy::Continue);
    s.step(Event::Start, 0);
    s.step(Event::Timer, 10);
    s.step(page(1, 2), 10);
    s.step(page(3, 4), 10);
    let reply = s.step(page(5, 6), 10);
    assert_eq!(point(&reply), ("gym-0".to_string(), 1, 2));
    assert_eq!(s.stage(), Stage::Writing { next: 0 });
    let reply = s.step(Event::Written(true), 10);
    assert_eq!(point(&reply), ("gym-1".to_string(), 3, 4));
    assert!(reply.notice.is_none());
    let reply = s.step(Event::Written(true), 10);
    assert_eq!(point(&reply), ("gym-2".to_string(), 5, 6));
    assert_eq!(s.stage(), Stage::Writing { next: 2 });
    expect_sleep(&s.step(Event::Written(true), 10), 20);
    assert_eq!(s.stage(), Stage::Resting);
}

#[test]
fn a_refused_point_does_not_block_the_points_after_it() {
    for policy in [FailurePolicy::Halt, FailurePolicy::Continue] {
        let mut s = service(3, "10", false, Backend::PointWrite, policy);
        s.step(Event::Start, 0);
        s.step(Event::Timer, 10);
        s.step(page(1, 2), 10);
        s.step(page(3, 4), 10);
        assert_eq!(point(&s.step(page(5, 6), 10)), ("gym-0".to_string(), 1, 2));
        let reply = s.step(Event::Written(true), 10);
        assert_eq!(point(&reply), ("gym-1".to_string(), 3, 4));
        let reply = s.step(Event::Written(false), 10);
        assert!(matches!(reply.notice, Some(Notice::WriteFailed(SinkError::Point { index: 1 }))));
        assert_eq!(point(&reply), ("gym-2".to_string(), 5, 6));
        let reply = s.step(Event::Written(false), 10);
        assert!(matches!(reply.notice, Some(Notice::WriteFailed(SinkError::Point { index: 2 }))));
        match policy {
            FailurePolicy::Halt => {
                expect_exit(&reply, Some(Failure::Sink(SinkError::Point { index: 1 })))
            }
            FailurePolicy::Continue => expect_sleep(&reply, 20),
        }
    }
}

#[test]
fn reports_that_do_not_apply_change_nothing() {
    let mut s = service(1, "10", false, Backend::BatchAppend, FailurePolicy::Halt);
    expect_continue(&s.step(Event::Timer, 100));
    expect_continue(&s.step(page(1, 2), 100));
    expect_continue(&s.step(Event::Fetched(FetchOutcome::Unreachable), 100));
    expect_continue(&s.step(Event::Written(false), 100));
    assert_eq!(s.scheduler().phase, Phase::Idle);
    s.step(Event::Start, 0);
    expect_continue(&s.step(Event::Start, 1));
    expect_continue(&s.step(page(1, 2), 1));
    expect_sleep(&s.step(Event::Timer, 9), 10);
    s.step(Event::Timer, 10);
    expect_continue(&s.step(Event::Written(true), 10));
    expect_continue(&s.step(Event::Timer, 20));
    assert_eq!(s.stage(), Stage::Fetching { index: 0 });
    s.step(page(1, 2), 10);
    expect_continue(&s.step(page(1, 2), 10));
    expect_continue(&s.step(Event::Timer, 20));
    assert_eq!(s.stage(), Stage::Writing { next: 0 });
    assert_eq!(s.batch_len(), 1);
}

#[test]
fn a_slow_tick_is_followed_by_the_next_point_that_has_not_passed() {
    let mut s = service(1, "10", false, Backend::BatchAppend, FailurePolicy::Halt);
    s.step(Event::Start, 0);
    s.step(Event::Timer, 10);
    s.step(page(1, 2), 25);
    expect_sleep(&s.step(Event::Written(true), 37), 40);
}

#[test]
fn an_observation_can_be_fed_as_it_is() {
    let mut s = service(2, "10", true, Backend::BatchAppend, FailurePolicy::Halt);
    s.apply(Input::Start, 0);
    expect_fetch(&s.apply(Input::Timer, 10), "token-0");
    let time = Timestamp::new(1_602_938_096, 123_456_789).unwrap();
    let readings = PageReadings { occupied: Reading::Value(12), free: Reading::Absent };
    let v = VisitorCount::from_readings("Kiel", time, readings);
    let reply = s.apply(Input::Observed(v, readings), 10);
    expect_fetch(&reply, "token-1");
    match &reply.notice {
        Some(Notice::Observed { line, readings: seen }) => {
            assert_eq!(
                line,
                "(time: 2020-10-17T12:34:56.123456789Z, location: Kiel, occupied: 12, free: 0)"
            );
            assert_eq!(*seen, readings);
        }
        other => panic!("unexpected notice {:?}", other),
    }
    let reply = s.apply(Input::FetchFailed(FetchError::Status(404)), 10);
    expect_exit(&reply, Some(Failure::Fetch(FetchError::Status(404))));
}

#[test]
fn the_pages_are_read_in_the_form_of_the_settings() {
    let mut settings = Settings::from_arguments(None, None, None, None, true).unwrap();
    settings.strategy = Strategy::FlatAttribute;
    let mut s = Service::new(&settings, gyms(1));
    s.step(Event::Start, 0);
    match s.step(Event::Timer, 60).order {
        Order::Fetch { url } => assert_eq!(
            url,
            "https://www.boulderado.de/boulderadoweb/gym-clientcounter/index.php?mode=get&token=token-0"
        ),
        other => panic!("unexpected order {:?}", other),
    }
    let body = r#"<div class="zoom actcounter" data-value="12"><span>1</span></div>
                  <div class="zoom freecounter" data-value="34"><span>2</span></div>"#;
    let fetched = Event::Fetched(FetchOutcome::Answered { status: 200, body: Some(body.to_string()) });
    assert_eq!(inserted(&s.step(fetched, 60)), vec![("gym-0".to_string(), 12, 34)]);
}
