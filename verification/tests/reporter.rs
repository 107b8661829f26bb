use sensor::bounded::TextOverflow;
use sensor::reading::Reading;
use sensor::reporter::{
    collector, request_text, Address, Endpoint, ReadOutcome, Reporter, ReporterAction,
    ReporterEvent, ReporterPhase, CONNECT_PAUSE_MS, COOL_DOWN_MS, READINESS_POLL_MS,
    REQUEST_CAPACITY, RESPONSE_CAPACITY, SOCKET_BUFFER, SOCKET_TIMEOUT_MS,
};
use sensor::store::SharedReading;

fn connect_action() -> ReporterAction {
    ReporterAction::Connect {
        endpoint: Endpoint {
            address: Address { first: 192, second: 168, third: 0, fourth: 110 },
            port: 5000,
        },
        timeout_ms: 10000,
    }
}

fn ready_reporter(store: &SharedReading) -> Reporter {
    let (mut reporter, _) = Reporter::begin();
    reporter.step(ReporterEvent::LinkUp(true), store);
    reporter.step(ReporterEvent::AddressAssigned(true), store);
    reporter.step(ReporterEvent::Elapsed, store);
    assert_eq!(reporter.phase, ReporterPhase::Connecting);
    reporter
}

#[test]
fn has_the_documented_constants() {
    assert_eq!(READINESS_POLL_MS, 500);
    assert_eq!(CONNECT_PAUSE_MS, 1000);
    assert_eq!(COOL_DOWN_MS, 60000);
    assert_eq!(SOCKET_TIMEOUT_MS, 10000);
    assert_eq!(SOCKET_BUFFER, 4096);
    assert_eq!(REQUEST_CAPACITY, 256);
    assert_eq!(RESPONSE_CAPACITY, 1024);
    assert_eq!(collector().port, 5000);
    assert_eq!(collector().address, Address { first: 192, second: 168, third: 0, fourth: 110 });
}

#[test]
fn writes_the_host_in_dotted_decimal() {
    assert_eq!(collector().host_text(), "192.168.0.110");
    let other = Endpoint {
        address: Address { first: 0, second: 255, third: 10, fourth: 7 },
        port: 80,
    };
    assert_eq!(other.host_text(), "0.255.10.7");
}

#[test]
fn formats_the_request_template() {
    let request = request_text("23.456", "55.1", "192.168.0.110");
    assert_eq!(
        request,
        Ok(String::from(
            "GET /append?temperature=23.456&humidity=55.1 HTTP/1.0\r\nHost: 192.168.0.110\r\n\r\n"
        ))
    );
}

#[test]
fn formats_the_request_as_std_would() {
    let temperature = format!("{}", -12.5f32);
    let humidity = format!("{}", 99.99f32);
    let expected = format!(
        "GET /append?temperature={}&humidity={} HTTP/1.0\r\nHost: 192.168.0.110\r\n\r\n",
        -12.5f32, 99.99f32
    );
    assert_eq!(request_text(&temperature, &humidity, &collector().host_text()), Ok(expected));
}

#[test]
fn refuses_a_request_that_does_not_fit() {
    let fixed = "GET /append?temperature=&humidity= HTTP/1.0\r\nHost: \r\n\r\n".len();
    assert_eq!(fixed, 55);
    let filler = "7".repeat(256 - fixed);
    let exact = request_text(&filler, "", "");
    assert_eq!(exact.as_ref().map(|text| text.len()), Ok(256));
    assert!(exact.unwrap().starts_with("GET /append?temperature=7777"));
    let longer = "7".repeat(256 - fixed + 1);
    assert_eq!(request_text(&longer, "", ""), Err(TextOverflow));
    assert_eq!(request_text("", &longer, ""), Err(TextOverflow));
    assert_eq!(request_text("", "", &longer), Err(TextOverflow));
}

#[test]
fn counts_bytes_not_characters_against_the_buffer() {
    let fixed = 55;
    let degrees = "°".repeat((256 - fixed) / 2);
    assert_eq!(degrees.chars().count(), 100);
    assert_eq!(degrees.len(), 200);
    let fits = request_text(&degrees, "1", "");
    assert_eq!(fits.map(|text| text.len()), Ok(256));
    assert_eq!(request_text(&degrees, "12", ""), Err(TextOverflow));
}

#[test]
fn polls_the_link_then_the_address() {
    let store = SharedReading::new();
    let (mut reporter, action) = Reporter::begin();
    assert_eq!(action, ReporterAction::QueryLink);
    assert_eq!(reporter.step(ReporterEvent::LinkUp(false), &store), Some(ReporterAction::Pause(500)));
    assert_eq!(reporter.step(ReporterEvent::Elapsed, &store), Some(ReporterAction::QueryLink));
    assert_eq!(reporter.step(ReporterEvent::LinkUp(false), &store), Some(ReporterAction::Pause(500)));
    assert_eq!(reporter.step(ReporterEvent::Elapsed, &store), Some(ReporterAction::QueryLink));
    assert_eq!(reporter.step(ReporterEvent::LinkUp(true), &store), Some(ReporterAction::QueryAddress));
    assert_eq!(
        reporter.step(ReporterEvent::AddressAssigned(false), &store),
        Some(ReporterAction::Pause(500))
    );
    assert_eq!(reporter.step(ReporterEvent::Elapsed, &store), Some(ReporterAction::QueryAddress));
    assert_eq!(
        reporter.step(ReporterEvent::AddressAssigned(true), &store),
        Some(ReporterAction::Pause(1000))
    );
    assert_eq!(reporter.step(ReporterEvent::Elapsed, &store), Some(connect_action()));
    assert_eq!(reporter.phase, ReporterPhase::Connecting);
}

#[test]
fn failed_connect_enters_no_exchange() {
    let store = SharedReading::new();
    let mut reporter = ready_reporter(&store);
    let mut attempt = 0;
    while attempt < 20 {
        assert_eq!(
            reporter.step(ReporterEvent::ConnectFinished(false), &store),
            Some(ReporterAction::Pause(1000))
        );
        assert_eq!(reporter.phase, ReporterPhase::Pausing);
        assert_eq!(reporter.step(ReporterEvent::WriteFinished(true), &store), None);
        assert_eq!(
            reporter.step(ReporterEvent::ReadFinished(ReadOutcome::Received(5)), &store),
            None
        );
        assert_eq!(reporter.step(ReporterEvent::Elapsed, &store), Some(connect_action()));
        attempt += 1;
    }
}

#[test]
fn failed_write_abandons_and_cools_down() {
    let mut store = SharedReading::new();
    let reading = Reading::from_bits(21.0f32.to_bits(), 40.0f32.to_bits());
    store.set(reading);
    let mut reporter = ready_reporter(&store);
    assert_eq!(
        reporter.step(ReporterEvent::ConnectFinished(true), &store),
        Some(ReporterAction::Transmit(reading))
    );
    assert_eq!(
        reporter.step(ReporterEvent::WriteFinished(false), &store),
        Some(ReporterAction::Abandon(60000))
    );
    assert_eq!(reporter.phase, ReporterPhase::CoolingDown);
    assert_eq!(reporter.step(ReporterEvent::Elapsed, &store), Some(ReporterAction::Pause(1000)));
    assert_eq!(reporter.step(ReporterEvent::Elapsed, &store), Some(connect_action()));
}

#[test]
fn repeats_the_exchange_until_the_collector_closes() {
    let mut store = SharedReading::new();
    let first = Reading::from_bits(1, 2);
    let second = Reading::from_bits(3, 4);
    store.set(first);
    let mut reporter = ready_reporter(&store);
    assert_eq!(
        reporter.step(ReporterEvent::ConnectFinished(true), &store),
        Some(ReporterAction::Transmit(first))
    );
    assert_eq!(reporter.step(ReporterEvent::WriteFinished(true), &store), Some(ReporterAction::Receive));
    store.set(second);
    assert_eq!(
        reporter.step(ReporterEvent::ReadFinished(ReadOutcome::Received(17)), &store),
        Some(ReporterAction::Transmit(second))
    );
    assert_eq!(reporter.step(ReporterEvent::WriteFinished(true), &store), Some(ReporterAction::Receive));
    assert_eq!(
        reporter.step(ReporterEvent::ReadFinished(ReadOutcome::Received(0)), &store),
        Some(ReporterAction::Abandon(60000))
    );
    assert_eq!(reporter.phase, ReporterPhase::CoolingDown);
}

#[test]
fn failed_read_abandons_and_cools_down() {
    let store = SharedReading::new();
    let mut reporter = ready_reporter(&store);
    reporter.step(ReporterEvent::ConnectFinished(true), &store);
    reporter.step(ReporterEvent::WriteFinished(true), &store);
    assert_eq!(
        reporter.step(ReporterEvent::ReadFinished(ReadOutcome::Failed), &store),
        Some(ReporterAction::Abandon(60000))
    );
    assert_eq!(reporter.step(ReporterEvent::Elapsed, &store), Some(ReporterAction::Pause(1000)));
}

#[test]
fn skips_events_out_of_turn() {
    let store = SharedReading::new();
    let (mut reporter, _) = Reporter::begin();
    assert_eq!(reporter.step(ReporterEvent::Elapsed, &store), None);
    assert_eq!(reporter.step(ReporterEvent::AddressAssigned(true), &store), None);
    assert_eq!(reporter.step(ReporterEvent::ConnectFinished(true), &store), None);
    assert_eq!(reporter.phase, ReporterPhase::ProbingLink);
}
