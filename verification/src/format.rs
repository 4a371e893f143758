//! Layouts: the placeholder grammar, its compiler, and the renderer.

use crate::record::EntryView;
use crate::record::LogEntry;
use crate::text::chars_of;
use crate::text::decimal;
use crate::text::push_decimal;
use crate::text::same_text;
use vstd::prelude::*;

verus! {

/// The layout of a line where none is given: time, level, module and message,
/// separated by tabs.
pub const DEFAULT_FORMAT_STRING: &'static str = "%{datetime:rfc3339}\t%{level}:\t%{modulePath}\t%{message}";

/// One compiled token of a layout: a field name with an optional argument.
/// Literal text is the field `string` with the text as its argument.
#[derive(Debug)]
pub struct Part {
    name: String,
    layout: Option<String>,
}

pub struct PartView {
    pub name: Seq<char>,
    pub layout: Option<Seq<char>>,
}

impl View for Part {
    type V = PartView;

    closed spec fn view(&self) -> PartView {
        PartView {
            name: self.name@,
            layout: match self.layout {
                Some(l) => Some(l@),
                None => None,
            },
        }
    }
}

/// The views of `parts`, one for one.
pub open spec fn views(parts: Seq<Part>) -> Seq<PartView> {
    Seq::new(parts.len(), |i: int| parts[i]@)
}

// ---------------------------------------------------------------------------
// The grammar
// ---------------------------------------------------------------------------

pub open spec fn is_letter(c: char) -> bool {
    ('a' <= c && c <= 'z') || ('A' <= c && c <= 'Z')
}

/// The end of the run of letters that begins at `i`: the first index from `i`
/// on that holds no letter, or the length of `s`.
pub open spec fn letters_end(s: Seq<char>, i: int) -> int
    decreases s.len() - i,
{
    if 0 <= i < s.len() && is_letter(s[i]) {
        letters_end(s, i + 1)
    } else {
        i
    }
}

/// The first index from `i` on that holds a closing brace, or the length of
/// `s` where there is none.
pub open spec fn brace_from(s: Seq<char>, i: int) -> int
    decreases s.len() - i,
{
    if 0 <= i < s.len() && s[i] != '}' {
        brace_from(s, i + 1)
    } else {
        i
    }
}

/// Where a placeholder begins at `i`, the index of its closing brace.
///
/// A placeholder is `%{`, one or more letters, and then either `}` or a colon
/// followed by any text up to the next `}`.
pub open spec fn placeholder_close(s: Seq<char>, i: int) -> Option<int> {
    if 0 <= i && i + 2 < s.len() && s[i] == '%' && s[i + 1] == '{' {
        let n = letters_end(s, i + 2);
        if n == i + 2 || n >= s.len() {
            None
        } else if s[n] == '}' {
            Some(n)
        } else if s[n] == ':' && brace_from(s, n + 1) < s.len() {
            Some(brace_from(s, n + 1))
        } else {
            None
        }
    } else {
        None
    }
}

/// The token of the placeholder that begins at `i` and closes at `close`: its
/// name is the run of letters, its argument all that stands between the first
/// colon and the closing brace.
pub open spec fn field_at(s: Seq<char>, i: int, close: int) -> PartView {
    let n = letters_end(s, i + 2);
    PartView {
        name: s.subrange(i + 2, n),
        layout: if n == close {
            None
        } else {
            Some(s.subrange(n + 1, close))
        },
    }
}

/// The token of literal text.
pub open spec fn literal(text: Seq<char>) -> PartView {
    PartView { name: "string"@, layout: Some(text) }
}

pub proof fn lemma_letters_end(s: Seq<char>, i: int)
    requires
        0 <= i <= s.len(),
    ensures
        i <= letters_end(s, i) <= s.len(),
        forall|k: int| i <= k < letters_end(s, i) ==> is_letter(#[trigger] s[k]),
        letters_end(s, i) < s.len() ==> !is_letter(s[letters_end(s, i)]),
    decreases s.len() - i,
{
    if i < s.len() && is_letter(s[i]) {
        lemma_letters_end(s, i + 1);
    }
}

pub proof fn lemma_brace_from(s: Seq<char>, i: int)
    requires
        0 <= i <= s.len(),
    ensures
        i <= brace_from(s, i) <= s.len(),
        forall|k: int| i <= k < brace_from(s, i) ==> #[trigger] s[k] != '}',
        brace_from(s, i) < s.len() ==> s[brace_from(s, i)] == '}',
    decreases s.len() - i,
{
    if i < s.len() && s[i] != '}' {
        lemma_brace_from(s, i + 1);
    }
}

/// A placeholder closes behind its name, inside the text.
pub proof fn lemma_placeholder_close(s: Seq<char>, i: int)
    ensures
        placeholder_close(s, i) matches Some(c) ==> {
            &&& 0 <= i
            &&& i + 2 < letters_end(s, i + 2) <= c < s.len()
            &&& s[c] == '}'
        },
{
    if 0 <= i && i + 2 < s.len() {
        lemma_letters_end(s, i + 2);
        let n = letters_end(s, i + 2);
        if n < s.len() {
            lemma_brace_from(s, n + 1);
        }
    }
}

/// The tokens of `s` from `i` on, where the literal text that is being read
/// began at `start`. Placeholders are taken from left to right, each as soon
/// as one begins; the text between them, before the first and behind the last
/// becomes a literal token each, an empty one where there is no such text.
pub open spec fn compile_from(s: Seq<char>, start: int, i: int) -> Seq<PartView>
    decreases s.len() - i,
{
    if i >= s.len() {
        seq![literal(s.subrange(start, s.len() as int))]
    } else {
        match placeholder_close(s, i) {
            Some(c) => {
                proof {
                    lemma_placeholder_close(s, i);
                }
                seq![literal(s.subrange(start, i)), field_at(s, i, c)] + compile_from(s, c + 1, c + 1)
            },
            None => compile_from(s, start, i + 1),
        }
    }
}

/// The tokens of the layout `s`.
pub open spec fn compiled(s: Seq<char>) -> Seq<PartView> {
    compile_from(s, 0, 0)
}

// ---------------------------------------------------------------------------
// The compiler
// ---------------------------------------------------------------------------

fn letter(c: char) -> (b: bool)
    ensures
        b == is_letter(c),
{
    ('a' <= c && c <= 'z') || ('A' <= c && c <= 'Z')
}

fn scan_letters(chars: &Vec<char>, from: usize) -> (end: usize)
    requires
        from <= chars@.len(),
    ensures
        end == letters_end(chars@, from as int),
        from <= end <= chars@.len(),
{
    let mut j: usize = from;
    while j < chars.len() && letter(chars[j])
        invariant
            from <= j <= chars@.len(),
            letters_end(chars@, from as int) == letters_end(chars@, j as int),
        decreases chars@.len() - j,
    {
        j += 1;
    }
    j
}

fn scan_brace(chars: &Vec<char>, from: usize) -> (end: usize)
    requires
        from <= chars@.len(),
    ensures
        end == brace_from(chars@, from as int),
        from <= end <= chars@.len(),
{
    let mut j: usize = from;
    while j < chars.len() && chars[j] != '}'
        invariant
            from <= j <= chars@.len(),
            brace_from(chars@, from as int) == brace_from(chars@, j as int),
        decreases chars@.len() - j,
    {
        j += 1;
    }
    j
}

/// Where a placeholder begins at `i`: the end of its name and the index of
/// its closing brace.
fn scan_placeholder(chars: &Vec<char>, i: usize) -> (found: Option<(usize, usize)>)
    requires
        i < chars@.len(),
    ensures
        match found {
            Some((name_end, close)) => placeholder_close(chars@, i as int) == Some(close as int)
                && name_end == letters_end(chars@, i + 2),
            None => placeholder_close(chars@, i as int).is_none(),
        },
{
    let n = chars.len();
    if n - i <= 2 || chars[i] != '%' || chars[i + 1] != '{' {
        return None;
    }
    let name_end = scan_letters(chars, i + 2);
    if name_end == i + 2 || name_end >= n {
        None
    } else if chars[name_end] == '}' {
        Some((name_end, name_end))
    } else if chars[name_end] == ':' {
        let close = scan_brace(chars, name_end + 1);
        if close < n {
            Some((name_end, close))
        } else {
            None
        }
    } else {
        None
    }
}

/// The text of `layout` between the character indices `from` and `to`.
fn slice_of(layout: &str, from: usize, to: usize) -> (text: String)
    requires
        from <= to <= layout@.len(),
    ensures
        text@ == layout@.subrange(from as int, to as int),
{
    layout.substring_char(from, to).to_owned()
}

impl Part {
    /// The token of the literal text `text`.
    pub fn text(text: String) -> (part: Part)
        ensures
            part@ == literal(text@),
    {
        Part { name: "string".to_owned(), layout: Some(text) }
    }

    /// The token of the field `name` with the argument `layout`.
    pub fn field(name: String, layout: Option<String>) -> (part: Part)
        ensures
            part@.name == name@,
            part@.layout == match layout {
                Some(l) => Some(l@),
                None => None,
            },
    {
        Part { name, layout }
    }
}

/// A layout compiled into its tokens. It holds no state of any rendering, so
/// any number of renderings may read it at the same time.
#[derive(Debug)]
pub struct StringFormatter {
    parts: Vec<Part>,
}

impl View for StringFormatter {
    type V = Seq<PartView>;

    closed spec fn view(&self) -> Seq<PartView> {
        views(self.parts@)
    }
}

impl StringFormatter {
    /// Compiles `layout`. No layout is rejected: a field name that the
    /// renderer does not know renders as nothing.
    pub fn new(layout: &str) -> (formatter: StringFormatter)
        ensures
            formatter@ == compiled(layout@),
    {
        let parts = StringFormatter::parse_parts(layout);
        StringFormatter { parts }
    }

    /// The tokens of `layout`.
    pub fn parse_parts(layout: &str) -> (parts: Vec<Part>)
        ensures
            views(parts@) == compiled(layout@),
    {
        let chars = chars_of(layout);
        let n = chars.len();
        let mut parts: Vec<Part> = Vec::new();
        let mut prev: usize = 0;
        let mut i: usize = 0;
        assert(views(parts@) =~= Seq::<PartView>::empty());
        while i < n
            invariant
                chars@ == layout@,
                n == chars@.len(),
                prev <= i <= n,
                views(parts@) + compile_from(layout@, prev as int, i as int) == compiled(layout@),
            decreases n - i,
        {
            proof {
                lemma_placeholder_close(layout@, i as int);
            }
            match scan_placeholder(&chars, i) {
                Some((name_end, close)) => {
                    let ghost before = views(parts@);
                    let text = Part::text(slice_of(layout, prev, i));
                    let name = slice_of(layout, i + 2, name_end);
                    let argument = if name_end == close {
                        None
                    } else {
                        Some(slice_of(layout, name_end + 1, close))
                    };
                    let field = Part::field(name, argument);
                    assert(field@ == field_at(layout@, i as int, close as int));
                    parts.push(text);
                    parts.push(field);
                    assert(views(parts@) =~= before + seq![
                        literal(layout@.subrange(prev as int, i as int)),
                        field_at(layout@, i as int, close as int),
                    ]);
                    assert(before + compile_from(layout@, prev as int, i as int) =~= views(parts@)
                        + compile_from(layout@, close + 1, close + 1));
                    prev = close + 1;
                    i = close + 1;
                },
                None => {
                    i += 1;
                },
            }
        }
        let ghost before = views(parts@);
        parts.push(Part::text(slice_of(layout, prev, n)));
        assert(views(parts@) =~= before + compile_from(layout@, prev as int, i as int));
        parts
    }

    /// The compiled tokens, in order.
    pub fn parts(&self) -> (parts: &Vec<Part>)
        ensures
            views(parts@) == self@,
    {
        &self.parts
    }
}

// ---------------------------------------------------------------------------
// The renderer
// ---------------------------------------------------------------------------

/// What a timestamp field with the argument `layout` shows of `entry`: the
/// fixed forms for `rfc2822` and `rfc3339`, the default form without an
/// argument, and else the argument taken as a strftime-style pattern, which
/// shows nothing where it cannot be formatted.
pub open spec fn datetime_piece(layout: Option<Seq<char>>, entry: EntryView) -> Seq<char> {
    match layout {
        None => entry.time.plain(),
        Some(l) => if l == "rfc2822"@ {
            entry.time.rfc2822()
        } else if l == "rfc3339"@ {
            entry.time.rfc3339()
        } else {
            match entry.time.pattern(l) {
                Some(text) => text,
                None => Seq::empty(),
            }
        },
    }
}

/// What one token shows of `entry`.
pub open spec fn piece(part: PartView, entry: EntryView) -> Seq<char> {
    if part.name == "string"@ {
        match part.layout {
            Some(text) => text,
            None => Seq::empty(),
        }
    } else if part.name == "datetime"@ {
        datetime_piece(part.layout, entry)
    } else if part.name == "line"@ {
        decimal(entry.location.line)
    } else if part.name == "level"@ {
        entry.level.label()
    } else if part.name == "file"@ {
        entry.location.file
    } else if part.name == "modulePath"@ {
        entry.location.module
    } else if part.name == "message"@ {
        entry.msg
    } else {
        Seq::empty()
    }
}

/// What the tokens show of `entry`, one after the other.
pub open spec fn rendered(parts: Seq<PartView>, entry: EntryView) -> Seq<char>
    decreases parts.len(),
{
    if parts.len() == 0 {
        Seq::empty()
    } else {
        rendered(parts.drop_last(), entry) + piece(parts.last(), entry)
    }
}

/// A token read by its two components.
pub trait Parted {
    fn name(&self) -> &str;

    fn layout(&self) -> &Option<String>;
}

impl Parted for Part {
    fn name(&self) -> (name: &str)
        ensures
            name@ == self@.name,
    {
        self.name.as_str()
    }

    fn layout(&self) -> (layout: &Option<String>)
        ensures
            self@.layout == match *layout {
                Some(l) => Some(l@),
                None => None,
            },
    {
        &self.layout
    }
}

/// Renders events into text.
pub trait Formatter: Send + Sync {
    /// The text that the formatter makes of an event.
    spec fn rendering(&self, record: EntryView) -> Seq<char>;

    fn parse(&self, record: &LogEntry) -> (text: String)
        ensures
            text@ == self.rendering(record@),
    ;
}

fn datetime(layout: &Option<String>, args: &LogEntry) -> (text: String)
    ensures
        text@ == datetime_piece(
            match *layout {
                Some(l) => Some(l@),
                None => None,
            },
            args@,
        ),
{
    match layout {
        Some(pattern) => {
            if same_text(pattern.as_str(), "rfc2822") {
                args.time().to_rfc2822()
            } else if same_text(pattern.as_str(), "rfc3339") {
                args.time().to_rfc3339()
            } else {
                match args.time().format(pattern.as_str()) {
                    Some(text) => text,
                    None => String::new(),
                }
            }
        },
        None => args.time().to_text(),
    }
}

/// Renders one token against one event.
pub fn parse(part: &Part, args: &LogEntry) -> (text: String)
    ensures
        text@ == piece(part@, args@),
{
    let name = part.name();
    if same_text(name, "string") {
        match part.layout() {
            Some(layout) => layout.clone(),
            None => String::new(),
        }
    } else if same_text(name, "datetime") {
        datetime(part.layout(), args)
    } else if same_text(name, "line") {
        let mut text = String::new();
        push_decimal(&mut text, args.location().line());
        assert(text@ =~= decimal(args@.location.line));
        text
    } else if same_text(name, "level") {
        args.level().as_str().to_owned()
    } else if same_text(name, "file") {
        args.location().file().to_owned()
    } else if same_text(name, "modulePath") {
        args.location().module().to_owned()
    } else if same_text(name, "message") {
        args.args().to_owned()
    } else {
        String::new()
    }
}

impl Formatter for StringFormatter {
    open spec fn rendering(&self, record: EntryView) -> Seq<char> {
        rendered(self@, record)
    }

    /// Renders the event through the layout.
    fn parse(&self, record: &LogEntry) -> (text: String) {
        let mut res = String::new();
        let mut i: usize = 0;
        assert(views(self.parts@).take(0) =~= Seq::<PartView>::empty());
        while i < self.parts.len()
            invariant
                i <= self.parts@.len(),
                res@ == rendered(views(self.parts@).take(i as int), record@),
            decreases self.parts@.len() - i,
        {
            let text = parse(&self.parts[i], record);
            res.append(text.as_str());
            proof {
                let all = views(self.parts@);
                assert(all.take(i + 1).drop_last() =~= all.take(i as int));
                assert(all.take(i + 1).last() == self.parts@[i as int]@);
            }
            i += 1;
        }
        assert(views(self.parts@).take(i as int) =~= views(self.parts@));
        res
    }
}

// ---------------------------------------------------------------------------
// Laws
// ---------------------------------------------------------------------------

/// Whether `s` is literal text throughout: no placeholder begins anywhere
/// in it.
pub open spec fn is_literal_text(s: Seq<char>) -> bool {
    forall|i: int| 0 <= i < s.len() ==> (#[trigger] placeholder_close(s, i)).is_none()
}

proof fn lemma_compile_literal_tail(s: Seq<char>, i: int)
    requires
        is_literal_text(s),
        0 <= i,
    ensures
        compile_from(s, 0, i) == seq![literal(s)],
    decreases s.len() - i,
{
    if i >= s.len() {
        assert(s.subrange(0, s.len() as int) =~= s);
    } else {
        assert(placeholder_close(s, i).is_none());
        lemma_compile_literal_tail(s, i + 1);
    }
}

/// A layout of literal text alone compiles into one literal token and renders
/// as itself, whatever the event.
pub proof fn lemma_literal_layout_renders_unchanged(s: Seq<char>, entry: EntryView)
    requires
        is_literal_text(s),
    ensures
        compiled(s) == seq![literal(s)],
        rendered(compiled(s), entry) == s,
{
    lemma_compile_literal_tail(s, 0);
    let parts = seq![literal(s)];
    assert(parts.drop_last() =~= Seq::<PartView>::empty());
    assert(rendered(parts.drop_last(), entry) =~= Seq::<char>::empty());
    assert(rendered(parts, entry) =~= s);
}

/// A text without a percent sign is literal text throughout.
pub proof fn lemma_no_percent_is_literal(s: Seq<char>)
    requires
        forall|i: int| 0 <= i < s.len() ==> #[trigger] s[i] != '%',
    ensures
        is_literal_text(s),
{
}

/// Rendering goes token by token: what two token sequences show one after
/// the other is what their concatenation shows.
pub proof fn lemma_rendered_concat(a: Seq<PartView>, b: Seq<PartView>, entry: EntryView)
    ensures
        rendered(a + b, entry) == rendered(a, entry) + rendered(b, entry),
    decreases b.len(),
{
    if b.len() == 0 {
        assert(a + b =~= a);
        assert(rendered(a, entry) + rendered(b, entry) =~= rendered(a, entry));
    } else {
        lemma_rendered_concat(a, b.drop_last(), entry);
        assert((a + b).drop_last() =~= a + b.drop_last());
        assert((a + b).last() == b.last());
        assert(rendered(a + b, entry) =~= rendered(a, entry) + rendered(b, entry));
    }
}

/// The layout `%{message}` shows the message of the event and nothing else.
pub proof fn lemma_message_layout(entry: EntryView)
    ensures
        rendered(compiled("%{message}"@), entry) == entry.msg,
{
    let s = "%{message}"@;
    reveal_strlit("%{message}");
    reveal_strlit("message");
    reveal_strlit("string");
    reveal_strlit("datetime");
    reveal_strlit("line");
    reveal_strlit("level");
    reveal_strlit("file");
    reveal_strlit("modulePath");
    reveal_with_fuel(letters_end, 10);
    reveal_with_fuel(compile_from, 3);
    reveal_with_fuel(rendered, 5);
    assert(letters_end(s, 2) == 9);
    assert(placeholder_close(s, 0) == Some(9int));
    assert(s.subrange(2, 9) =~= "message"@);
    assert(s.subrange(0, 0) =~= Seq::<char>::empty());
    assert(s.subrange(10, 10) =~= Seq::<char>::empty());
    let parts = compiled(s);
    assert(parts =~= seq![
        literal(Seq::empty()),
        PartView { name: "message"@, layout: None },
        literal(Seq::empty()),
    ]);
    assert(piece(parts[1], entry) == entry.msg);
    assert(piece(parts[0], entry) =~= Seq::<char>::empty());
    assert(parts.drop_last().drop_last().drop_last() =~= Seq::<PartView>::empty());
    assert(rendered(parts, entry) =~= entry.msg);
}

/// The layout `%{line}` shows the line of the event as a decimal numeral and
/// nothing else. The text depends on the event alone: rendering keeps no
/// state, so every rendering of an equal event is the same text.
pub proof fn lemma_line_layout(entry: EntryView)
    ensures
        rendered(compiled("%{line}"@), entry) == decimal(entry.location.line),
{
    let s = "%{line}"@;
    reveal_strlit("%{line}");
    reveal_strlit("string");
    reveal_strlit("datetime");
    reveal_strlit("line");
    reveal_with_fuel(letters_end, 7);
    reveal_with_fuel(compile_from, 3);
    reveal_with_fuel(rendered, 5);
    assert(letters_end(s, 2) == 6);
    assert(placeholder_close(s, 0) == Some(6int));
    assert(s.subrange(2, 6) =~= "line"@);
    assert(s.subrange(0, 0) =~= Seq::<char>::empty());
    assert(s.subrange(7, 7) =~= Seq::<char>::empty());
    let parts = compiled(s);
    assert(parts =~= seq![
        literal(Seq::empty()),
        PartView { name: "line"@, layout: None },
        literal(Seq::empty()),
    ]);
    assert(piece(parts[1], entry) == decimal(entry.location.line));
    assert(piece(parts[0], entry) =~= Seq::<char>::empty());
    assert(parts.drop_last().drop_last().drop_last() =~= Seq::<PartView>::empty());
    assert(rendered(parts, entry) =~= decimal(entry.location.line));
}

/// The token of a placeholder has a name of one or more letters, and an
/// argument, where it has one, without a closing brace.
pub proof fn lemma_field_shape(s: Seq<char>, i: int)
    requires
        placeholder_close(s, i).is_some(),
    ensures
        ({
            let field = field_at(s, i, placeholder_close(s, i).unwrap());
            &&& field.name.len() > 0
            &&& forall|k: int| 0 <= k < field.name.len() ==> is_letter(#[trigger] field.name[k])
            &&& field.layout matches Some(argument) ==> forall|k: int|
                0 <= k < argument.len() ==> #[trigger] argument[k] != '}'
        }),
{
    lemma_placeholder_close(s, i);
    lemma_letters_end(s, i + 2);
    let n = letters_end(s, i + 2);
    if n < s.len() && s[n] == ':' {
        lemma_brace_from(s, n + 1);
    }
}

/// The text of a placeholder that compiles into `field`.
pub open spec fn placeholder_text(field: PartView) -> Seq<char> {
    seq!['%', '{'] + field.name + match field.layout {
        Some(argument) => seq![':'] + argument,
        None => Seq::empty(),
    } + seq!['}']
}

/// The text of a literal token.
pub open spec fn literal_text(part: PartView) -> Seq<char> {
    match part.layout {
        Some(text) => text,
        None => Seq::empty(),
    }
}

/// The layout that tokens in the compiler's order stand for: literal text,
/// then placeholder and literal text in turn.
pub open spec fn layout_text(parts: Seq<PartView>) -> Seq<char>
    decreases parts.len(),
{
    if parts.len() == 0 {
        Seq::empty()
    } else if parts.len() == 1 {
        literal_text(parts[0])
    } else {
        literal_text(parts[0]) + placeholder_text(parts[1]) + layout_text(parts.skip(2))
    }
}

proof fn lemma_compile_from_keeps_text(s: Seq<char>, start: int, i: int)
    requires
        0 <= start <= i <= s.len(),
    ensures
        layout_text(compile_from(s, start, i)) == s.subrange(start, s.len() as int),
        compile_from(s, start, i).len() % 2 == 1,
    decreases s.len() - i,
{
    if i >= s.len() {
    } else {
        match placeholder_close(s, i) {
            Some(c) => {
                lemma_placeholder_close(s, i);
                lemma_compile_from_keeps_text(s, c + 1, c + 1);
                let n = letters_end(s, i + 2);
                let rest = compile_from(s, c + 1, c + 1);
                let parts = compile_from(s, start, i);
                let field = field_at(s, i, c);
                assert(parts == seq![literal(s.subrange(start, i)), field] + rest);
                assert(parts.skip(2) =~= rest);
                assert(parts[0] == literal(s.subrange(start, i)));
                assert(parts[1] == field);
                assert(placeholder_text(field) =~= s.subrange(i, c + 1)) by {
                    if n == c {
                        assert(placeholder_text(field) =~= seq!['%', '{'] + s.subrange(i + 2, n) + seq!['}']);
                    } else {
                        assert(s[n] == ':');
                        assert(placeholder_text(field) =~= seq!['%', '{'] + s.subrange(i + 2, n) + (seq![':']
                            + s.subrange(n + 1, c)) + seq!['}']);
                    }
                }
                assert(layout_text(parts) =~= s.subrange(start, i) + s.subrange(i, c + 1) + s.subrange(
                    c + 1,
                    s.len() as int,
                ));
                assert(layout_text(parts) =~= s.subrange(start, s.len() as int));
            },
            None => {
                lemma_compile_from_keeps_text(s, start, i + 1);
            },
        }
    }
}

/// Compiling loses nothing: the tokens of a layout are literal text and
/// placeholders in turn, beginning and ending with literal text, and written
/// out again they are the layout, character for character.
pub proof fn lemma_compile_keeps_text(s: Seq<char>)
    ensures
        layout_text(compiled(s)) == s,
        compiled(s).len() % 2 == 1,
{
    lemma_compile_from_keeps_text(s, 0, 0);
    assert(s.subrange(0, s.len() as int) =~= s);
}

} // verus!
