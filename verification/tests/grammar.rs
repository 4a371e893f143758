use logroute::format::StringFormatter;
use logroute::Parted;
use regex::Regex;

/// The tokens of `layout` with the placeholders found by a regular
/// expression. Text between placeholders is a `string` token; no token is
/// made of an empty stretch.
fn by_pattern(layout: &str) -> Vec<(String, Option<String>)> {
    let pattern = Regex::new(r"%\{([a-zA-Z]+)(?::(.*?[^\\]))?\}").unwrap();
    let mut parts = Vec::new();
    let mut prev = 0usize;
    for pos in pattern.find_iter(layout) {
        let (start, end) = (pos.start(), pos.end());
        if start > prev {
            parts.push(("string".to_string(), Some(layout[prev..start].to_string())));
        }
        let inner = &layout[start + 2..end - 1];
        let mut split: Vec<String> = inner.split(':').map(String::from).collect();
        let name = split[0].clone();
        let argument = match split.len() {
            2 => Some(split[1].clone()),
            0 | 1 => None,
            _ => {
                split.remove(0);
                Some(split.join(":"))
            }
        };
        parts.push((name, argument));
        prev = end;
    }
    if prev < layout.len() {
        parts.push(("string".to_string(), Some(layout[prev..].to_string())));
    }
    parts
}

/// The tokens that the compiler makes of `layout`, without the literal
/// tokens that hold no text.
fn compiled(layout: &str) -> Vec<(String, Option<String>)> {
    StringFormatter::parse_parts(layout)
        .iter()
        .map(|p| (p.name().to_string(), p.layout().clone()))
        .filter(|(name, argument)| !(name == "string" && argument.as_deref() == Some("")))
        .collect()
}

#[test]
fn compiler_agrees_with_the_pattern() {
    let layouts = [
        "",
        "plain",
        "%{message}",
        "%{line}",
        "%{string}",
        "%{string:layout} ",
        "%{string:layout}  %{tmp:abc}",
        "abcdefg%{file}:%{line} aaaa %{tmp:abc} aaa",
        "%{datetime:rfc3339}\t%{level}:\t%{modulePath}\t%{message}",
        "%{datetime:%Y-%m-%d %H:%M:%S} [%{level}] %{message}",
        "%{datetime:%H:%M:%S}%{level}%{message}",
        "100% {sure} %{level}",
        "%{%{level}",
        "%%{level}}",
        "%{a b} %{9} %{} %{name",
        "%{a:b:c:d} and %{e::f}",
        "é%{line}ü %{message} ß",
    ];
    for layout in layouts {
        assert_eq!(compiled(layout), by_pattern(layout), "layout {:?}", layout);
    }
}
