use logroute::format::StringFormatter;
use logroute::output::stdout::Direction;
use logroute::output::stdout::Std;
use logroute::LogEntry;
use logroute::LogLevel;
use logroute::LogLocation;
use logroute::Timestamp;

fn entry(msg: &str) -> LogEntry {
    let location = LogLocation::new("m".to_string(), "f".to_string(), 1);
    LogEntry::new(LogLevel::Info, "t".to_string(), location, msg.to_string(), Timestamp::new(0, 0, 0).unwrap())
}

#[test]
fn output_stdout() {
    let out = Std::new(Direction::STDOUT, StringFormatter::new("%{message}"));
    assert_eq!(out.direction(), Direction::STDOUT);
    assert_eq!(out.line(&entry("test123")), "test123");

    let err = Std::new(Direction::STDERR, StringFormatter::new("%{level} %{message}"));
    assert_eq!(err.direction(), Direction::STDERR);
    assert_eq!(err.line(&entry("test321")), "INFO test321");
}
