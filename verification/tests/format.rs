use logroute::format::parse;
use logroute::format::Part;
use logroute::format::StringFormatter;
use logroute::Formatter;
use logroute::LogEntry;
use logroute::LogLevel;
use logroute::LogLocation;
use logroute::Parted;
use logroute::Timestamp;

fn entry_with(level: LogLevel, line: u32, message: &str) -> LogEntry {
    let location = LogLocation::new("app::net".to_string(), "src/net.rs".to_string(), line);
    let time = Timestamp::new(1_431_648_000, 0, 0).unwrap();
    LogEntry::new(level, "net".to_string(), location, message.to_string(), time)
}

fn shape(layout: &str) -> Vec<(String, Option<String>)> {
    StringFormatter::parse_parts(layout)
        .iter()
        .map(|p| (p.name().to_string(), p.layout().clone()))
        .collect()
}

fn lit(text: &str) -> (String, Option<String>) {
    ("string".to_string(), Some(text.to_string()))
}

fn field(name: &str, argument: Option<&str>) -> (String, Option<String>) {
    (name.to_string(), argument.map(|a| a.to_string()))
}

#[test]
fn literal_layout_renders_unchanged() {
    let e = entry_with(LogLevel::Info, 1, "ignored");
    for layout in ["", "plain text", "100% {sure}", "%{", "%{}", "%{9}", "%{a b}", "%{name", "%{name:open"] {
        assert_eq!(StringFormatter::new(layout).parse(&e), layout);
        assert_eq!(shape(layout), vec![lit(layout)]);
    }
}

#[test]
fn message_placeholder_renders_message() {
    let e = entry_with(LogLevel::Info, 1, "X");
    assert_eq!(StringFormatter::new("%{message}").parse(&e), "X");
}

#[test]
fn line_placeholder_renders_decimal_line() {
    let e = entry_with(LogLevel::Info, 42, "m");
    let f = StringFormatter::new("%{line}");
    assert_eq!(f.parse(&e), "42");
    let copy = e.clone();
    assert_eq!(f.parse(&copy), "42");
    assert_eq!(f.parse(&entry_with(LogLevel::Info, 42, "m")), f.parse(&e));
    assert_eq!(f.parse(&e), f.parse(&e));
}

#[test]
fn line_numbers_in_decimal() {
    let f = StringFormatter::new("%{line}");
    for (line, text) in [(0u32, "0"), (7, "7"), (10, "10"), (909, "909"), (4_294_967_295, "4294967295")] {
        assert_eq!(f.parse(&entry_with(LogLevel::Info, line, "m")), text);
    }
}

#[test]
fn compile_splits_layout_into_tokens() {
    assert_eq!(shape("%{string}"), vec![lit(""), field("string", None), lit("")]);
    assert_eq!(shape("%{string:layout} "), vec![lit(""), field("string", Some("layout")), lit(" ")]);
    assert_eq!(
        shape("%{string:layout}  %{tmp:abc}"),
        vec![lit(""), field("string", Some("layout")), lit("  "), field("tmp", Some("abc")), lit("")]
    );
    assert_eq!(
        shape("abcdefg%{file}:%{line} aaaa %{tmp:abc} aaa"),
        vec![
            lit("abcdefg"),
            field("file", None),
            lit(":"),
            field("line", None),
            lit(" aaaa "),
            field("tmp", Some("abc")),
            lit(" aaa"),
        ]
    );
}

#[test]
fn argument_keeps_its_colons() {
    assert_eq!(
        shape("%{datetime:%H:%M:%S}"),
        vec![lit(""), field("datetime", Some("%H:%M:%S")), lit("")]
    );
    assert_eq!(shape("%{a:}"), vec![lit(""), field("a", Some("")), lit("")]);
    assert_eq!(shape("%{a::}"), vec![lit(""), field("a", Some(":")), lit("")]);
}

#[test]
fn placeholder_is_taken_at_its_leftmost_start() {
    assert_eq!(shape("%{%{level}"), vec![lit("%{"), field("level", None), lit("")]);
    assert_eq!(shape("%%{level}}"), vec![lit("%"), field("level", None), lit("}")]);
    assert_eq!(shape("%{a:%{b}}"), vec![lit(""), field("a", Some("%{b")), lit("}")]);
    assert_eq!(shape("é%{line}ü"), vec![lit("é"), field("line", None), lit("ü")]);
}

#[test]
fn every_known_field_renders() {
    let e = entry_with(LogLevel::Warn, 17, "disk full");
    let f = StringFormatter::new("%{level}|%{file}|%{line}|%{modulePath}|%{message}|%{string:lit}|%{string}|");
    assert_eq!(f.parse(&e), "WARN|src/net.rs|17|app::net|disk full|lit||");
}

#[test]
fn unknown_field_renders_as_nothing() {
    let e = entry_with(LogLevel::Warn, 17, "disk full");
    assert_eq!(StringFormatter::new("[%{tmp:abc}%{target}]").parse(&e), "[]");
}

#[test]
fn level_names() {
    let f = StringFormatter::new("%{level}");
    let names = [
        (LogLevel::Error, "ERROR"),
        (LogLevel::Warn, "WARN"),
        (LogLevel::Info, "INFO"),
        (LogLevel::Debug, "DEBUG"),
        (LogLevel::Trace, "TRACE"),
    ];
    for (level, name) in names {
        assert_eq!(f.parse(&entry_with(level, 1, "m")), name);
        assert_eq!(level.as_str(), name);
    }
}

#[test]
fn datetime_forms() {
    let e = entry_with(LogLevel::Info, 1, "m");
    assert_eq!(StringFormatter::new("%{datetime:rfc3339}").parse(&e), "2015-05-15T00:00:00+00:00");
    assert_eq!(StringFormatter::new("%{datetime:rfc2822}").parse(&e), "Fri, 15 May 2015 00:00:00 +0000");
    assert_eq!(StringFormatter::new("%{datetime}").parse(&e), "2015-05-15 00:00:00 +00:00");
    assert_eq!(StringFormatter::new("%{datetime:%d/%m/%Y %H:%M}").parse(&e), "15/05/2015 00:00");
    assert_eq!(StringFormatter::new("%{datetime:%H:%M:%S}").parse(&e), "00:00:00");
}

#[test]
fn datetime_uses_the_captured_offset() {
    let location = LogLocation::new("m".to_string(), "f".to_string(), 1);
    let time = Timestamp::new(1_431_648_000, 500_000_000, 9 * 3600).unwrap();
    let e = LogEntry::new(LogLevel::Info, "t".to_string(), location, "m".to_string(), time);
    assert_eq!(StringFormatter::new("%{datetime:rfc3339}").parse(&e), "2015-05-15T09:00:00.500+09:00");
    assert_eq!(StringFormatter::new("%{datetime:rfc2822}").parse(&e), "Fri, 15 May 2015 09:00:00 +0900");
    assert_eq!(StringFormatter::new("%{datetime}").parse(&e), "2015-05-15 09:00:00.500 +09:00");
}

#[test]
fn datetime_pattern_that_cannot_be_formatted_renders_as_nothing() {
    let e = entry_with(LogLevel::Info, 1, "m");
    assert_eq!(StringFormatter::new("<%{datetime:%Q}>").parse(&e), "<>");
}

#[test]
fn default_layout_renders_a_full_line() {
    let e = entry_with(LogLevel::Error, 3, "boom");
    let f = StringFormatter::new("%{datetime:rfc3339}\t%{level}:\t%{modulePath}\t%{message}");
    assert_eq!(f.parse(&e), "2015-05-15T00:00:00+00:00\tERROR:\tapp::net\tboom");
}

#[test]
fn single_token_rendering() {
    let e = entry_with(LogLevel::Debug, 5, "hello");
    assert_eq!(parse(&Part::text("as is".to_string()), &e), "as is");
    assert_eq!(parse(&Part::field("message".to_string(), None), &e), "hello");
    assert_eq!(parse(&Part::field("message".to_string(), Some("x".to_string())), &e), "hello");
    assert_eq!(parse(&Part::field("string".to_string(), None), &e), "");
    assert_eq!(parse(&Part::field("nothing".to_string(), None), &e), "");
}

#[test]
fn compiling_loses_nothing() {
    let layouts = ["", "a", "%{a}", "%{a:b}", "x%{a}y%{b:c:d}z", "%{a}%{b}", "%{", "%{a:}", "%{%{a}}"];
    for layout in layouts {
        let parts = shape(layout);
        assert_eq!(parts.len() % 2, 1);
        let mut text = String::new();
        for (i, (name, argument)) in parts.iter().enumerate() {
            if i % 2 == 0 {
                assert_eq!(name, "string");
                text += argument.as_deref().unwrap();
            } else {
                assert!(!name.is_empty() && name.chars().all(|c| c.is_ascii_alphabetic()));
                text += "%{";
                text += name;
                if let Some(a) = argument {
                    assert!(!a.contains('}'));
                    text += ":";
                    text += a;
                }
                text += "}";
            }
        }
        assert_eq!(text, layout);
    }
}
