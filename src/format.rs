//! Rendering of templates against a snapshot of player metadata: the three
//! template helpers, the template engine behind them, the messages of its
//! errors, and the decisions of the watch loop.
use vstd::prelude::*;
use vstd::string::*;
use crate::value::{decimal, push_decimal};

pub mod join;
pub mod or;
pub mod time;

verus! {

/// The template engine of the handlebars crate.
#[verifier::external_type_specification]
#[verifier::external_body]
pub struct ExHandlebars(handlebars::Handlebars);

/// A template that handlebars could not parse.
#[verifier::external_type_specification]
#[verifier::external_body]
pub struct ExTemplateError(handlebars::TemplateError);

/// A failure of handlebars while rendering.
#[verifier::external_type_specification]
#[verifier::external_body]
pub struct ExRenderError(handlebars::RenderError);

/// A JSON value of serde_json (re-exported by handlebars), the data that
/// handlebars renders against.
#[verifier::external_type_specification]
#[verifier::external_body]
pub struct ExJsonValue(handlebars::JsonValue);

/// The name under which the user's template is registered.
pub const TEMPLATE_NAME: &'static str = "main";

/// The default pause between two renders in watch mode, in milliseconds.
pub const DEFAULT_INTERVAL_MS: u32 = 250;

/// A failure of the template engine.
#[derive(PartialEq, Eq, Debug)]
pub enum Error {
    /// The template could not be compiled.
    TemplateError(String),
    /// The template could not be rendered.
    RenderError(String),
}

/// A position part: the number, or `?` where it is unknown.
pub open spec fn position_text(n: Option<usize>) -> Seq<char> {
    match n {
        Some(num) => decimal(num as nat),
        None => seq!['?'],
    }
}

/// `message`, then on a line of its own `(at line L, column C)`.
pub open spec fn located_message(message: Seq<char>, line: Option<usize>, column: Option<usize>) -> Seq<char> {
    message + "\n(at line "@ + position_text(line) + ", column "@ + position_text(column) + ")"@
}

/// A line or column number as text, `?` where it is unknown.
pub fn option_usize_to_string(n: Option<usize>) -> (r: String)
    ensures
        r@ == position_text(n),
{
    let mut out = String::new();
    match n {
        Some(num) => push_decimal(&mut out, num as u64),
        None => {
            proof {
                reveal_strlit("?");
            }
            out.append("?");
        },
    }
    assert(out@ =~= position_text(n));
    out
}

/// The description of an engine error: its message and where it occurred.
pub fn located_error_message(message: &str, line: Option<usize>, column: Option<usize>) -> (r: String)
    ensures
        r@ == located_message(message@, line, column),
{
    let mut out = String::from_str(message);
    out.append("\n(at line ");
    let line_text = option_usize_to_string(line);
    out.append(line_text.as_str());
    out.append(", column ");
    let column_text = option_usize_to_string(column);
    out.append(column_text.as_str());
    out.append(")");
    assert(out@ =~= located_message(message@, line, column));
    out
}

/// Relies on the public fields of handlebars' `TemplateError`: the reason
/// (through its `Display`), the line and the column.
#[verifier::external_body]
fn template_error_parts(e: &handlebars::TemplateError) -> (String, Option<usize>, Option<usize>) {
    (e.reason.to_string(), e.line_no, e.column_no)
}

/// Relies on the public fields of handlebars' `RenderError`: the description,
/// the line and the column.
#[verifier::external_body]
fn render_error_parts(e: &handlebars::RenderError) -> (String, Option<usize>, Option<usize>) {
    (e.desc.clone(), e.line_no, e.column_no)
}

/// The library's error for a template that did not compile.
pub fn template_error(e: &handlebars::TemplateError) -> (r: Error)
    ensures
        r is TemplateError,
        exists|reason: Seq<char>, line: Option<usize>, column: Option<usize>|
            r->TemplateError_0@ == located_message(reason, line, column),
{
    let (reason, line, column) = template_error_parts(e);
    let message = located_error_message(reason.as_str(), line, column);
    Error::TemplateError(message)
}

/// The library's error for a template that did not render.
pub fn render_error(e: &handlebars::RenderError) -> (r: Error)
    ensures
        r is RenderError,
        exists|desc: Seq<char>, line: Option<usize>, column: Option<usize>|
            r->RenderError_0@ == located_message(desc, line, column),
{
    let (desc, line, column) = render_error_parts(e);
    let message = located_error_message(desc.as_str(), line, column);
    Error::RenderError(message)
}

/// Whether handlebars parses `template`.
pub uninterp spec fn template_compiles(template: Seq<char>) -> bool;

/// The whitespace that may stand between the parts of a tag.
pub open spec fn is_tag_space(c: char) -> bool {
    c == ' ' || c == '\t' || c == '\n' || c == '\r'
}

/// The first position from `i` on that holds no whitespace (or the end).
pub open spec fn skip_space(t: Seq<char>, i: int) -> int
    decreases t.len() - i,
{
    if 0 <= i < t.len() && is_tag_space(t[i]) { skip_space(t, i + 1) } else { i }
}

/// At `i` stands `{{`, then an optional `~`, then `/` and `(`, with any
/// whitespace between: a closing tag that names a subexpression.
pub open spec fn subexpression_close_at(t: Seq<char>, i: int) -> bool {
    let a = skip_space(t, i + 2);
    let b = if 0 <= a < t.len() && t[a] == '~' { skip_space(t, a + 1) } else { a };
    let c = skip_space(t, b + 1);
    &&& 0 <= i && i + 1 < t.len()
    &&& t[i] == '{' && t[i + 1] == '{'
    &&& 0 <= b < t.len() && t[b] == '/'
    &&& 0 <= c < t.len() && t[c] == '('
}

/// The template closes a block with a subexpression, as in `{{/(or)}}`.
pub open spec fn has_subexpression_close(t: Seq<char>) -> bool {
    exists|i: int| 0 <= i < t.len() && #[trigger] subexpression_close_at(t, i)
}

/// Relies on `Handlebars::register_template_string`, which parses the
/// template and keeps it under the given name; whether it parses depends on
/// the template text alone. A closing tag that names a subexpression parses
/// but makes it panic, so such templates are left out.
#[verifier::external_body]
fn register_template(registry: &mut handlebars::Handlebars, name: &str, template: &str) -> (r: Result<(), handlebars::TemplateError>)
    requires
        !has_subexpression_close(template@),
    ensures
        r is Ok == template_compiles(template@),
{
    registry.register_template_string(name, template)
}

fn skip_space_at(s: &str, len: usize, i: usize) -> (r: usize)
    requires
        len == s@.len(),
        i <= len,
    ensures
        r == skip_space(s@, i as int),
        i <= r <= len,
{
    let mut j: usize = i;
    while j < len && is_space_char(s.get_char(j))
        invariant
            len == s@.len(),
            i <= j <= len,
            skip_space(s@, j as int) == skip_space(s@, i as int),
        decreases len - j,
    {
        j = j + 1;
    }
    j
}

fn is_space_char(c: char) -> (r: bool)
    ensures
        r == is_tag_space(c),
{
    c == ' ' || c == '\t' || c == '\n' || c == '\r'
}

/// Whether the template closes a block with a subexpression.
pub fn closes_with_subexpression(template: &str) -> (r: bool)
    ensures
        r == has_subexpression_close(template@),
{
    let len = template.unicode_len();
    let mut i: usize = 0;
    while i < len
        invariant
            len == template@.len(),
            i <= len,
            forall|k: int| 0 <= k < i ==> !#[trigger] subexpression_close_at(template@, k),
        decreases len - i,
    {
        if i + 1 < len && template.get_char(i) == '{' && template.get_char(i + 1) == '{' {
            let a = skip_space_at(template, len, i + 2);
            let b = if a < len && template.get_char(a) == '~' { skip_space_at(template, len, a + 1) } else { a };
            if b < len && template.get_char(b) == '/' {
                let c = skip_space_at(template, len, b + 1);
                if c < len && template.get_char(c) == '(' {
                    assert(subexpression_close_at(template@, i as int));
                    return true;
                }
            }
        }
        assert(!subexpression_close_at(template@, i as int));
        i = i + 1;
    }
    false
}

/// The reason given for a template that closes a block with a subexpression.
pub open spec fn subexpression_close_reason() -> Seq<char> {
    "a block cannot be closed by a subexpression"@
}

/// Relies on `Handlebars::render`, which renders the named template against
/// a JSON value.
#[verifier::external_body]
fn render_registered(registry: &handlebars::Handlebars, name: &str, context: &handlebars::JsonValue) -> Result<String, handlebars::RenderError> {
    registry.render(name, context)
}

/// The library's result for what compiling a template gave: success as it
/// is, a failure as a template error that says where it occurred.
pub fn compile_outcome(result: Result<(), handlebars::TemplateError>) -> (r: Result<(), Error>)
    ensures
        r is Ok == result is Ok,
        r matches Err(e) ==> e is TemplateError && exists|reason: Seq<char>, line: Option<usize>, column: Option<usize>|
            e->TemplateError_0@ == located_message(reason, line, column),
{
    match result {
        Ok(()) => Ok(()),
        Err(e) => Err(template_error(&e)),
    }
}

/// The library's result for what rendering gave: the text as it is, a
/// failure as a render error that says where it occurred.
pub fn render_outcome(result: Result<String, handlebars::RenderError>) -> (r: Result<String, Error>)
    ensures
        match result {
            Ok(text) => r == Ok::<String, Error>(text),
            Err(_) => r matches Err(e) && e is RenderError
                && exists|desc: Seq<char>, line: Option<usize>, column: Option<usize>|
                    e->RenderError_0@ == located_message(desc, line, column),
        },
{
    match result {
        Ok(text) => Ok(text),
        Err(e) => Err(render_error(&e)),
    }
}

/// Compiles the user's template into `registry`, once, before any render.
/// It succeeds exactly when no block is closed by a subexpression and
/// handlebars parses the template; a failure is a template error that says
/// where it occurred, and where a block is closed by a subexpression, says so
/// with its position unknown.
pub fn setup_template(registry: &mut handlebars::Handlebars, template: &str) -> (r: Result<(), Error>)
    ensures
        r is Ok == (!has_subexpression_close(template@) && template_compiles(template@)),
        has_subexpression_close(template@) ==> (r matches Err(Error::TemplateError(m))
            && m@ == located_message(subexpression_close_reason(), None, None)),
        r matches Err(e) ==> e is TemplateError && exists|reason: Seq<char>, line: Option<usize>, column: Option<usize>|
            e->TemplateError_0@ == located_message(reason, line, column),
{
    if closes_with_subexpression(template) {
        let message = located_error_message("a block cannot be closed by a subexpression", None, None);
        return Err(Error::TemplateError(message));
    }
    compile_outcome(register_template(registry, TEMPLATE_NAME, template))
}

/// Renders the user's template against a context. Whether rendering
/// succeeds rests with handlebars and the helpers registered with it; a
/// failure is a render error that says where it occurred.
pub fn render_template(registry: &handlebars::Handlebars, context: &handlebars::JsonValue) -> (r: Result<String, Error>)
    ensures
        r matches Err(e) ==> e is RenderError && exists|desc: Seq<char>, line: Option<usize>, column: Option<usize>|
            e->RenderError_0@ == located_message(desc, line, column),
{
    render_outcome(render_registered(registry, TEMPLATE_NAME, context))
}

/// The output last printed by the watch loop.
pub struct RenderHistory {
    pub last_output: String,
}

/// What one render prints after `last` was printed: the render where it
/// differs, and nothing where it is the same.
pub open spec fn observed(last: Seq<char>, output: Seq<char>) -> Option<Seq<char>> {
    if output == last { None } else { Some(output) }
}

/// What the watch loop prints when `outputs` are rendered in turn after
/// `last` was printed.
pub open spec fn printed(last: Seq<char>, outputs: Seq<Seq<char>>) -> Seq<Seq<char>>
    decreases outputs.len(),
{
    if outputs.len() == 0 {
        Seq::empty()
    } else {
        let before = printed(last, outputs.drop_last());
        let previous = if outputs.len() == 1 { last } else { outputs[outputs.len() - 2] };
        match observed(previous, outputs.last()) {
            Some(text) => before.push(text),
            None => before,
        }
    }
}

impl RenderHistory {
    /// A history in which nothing has been printed: the last output is empty.
    pub fn new() -> (r: RenderHistory)
        ensures
            r.last_output@ == Seq::<char>::empty(),
    {
        RenderHistory { last_output: String::new() }
    }

    /// Takes a fresh render: returns it to be printed where it differs from
    /// the last output, and nothing where it is the same. Either way it is the
    /// last output afterwards.
    pub fn observe(&mut self, output: String) -> (r: Option<String>)
        ensures
            final(self).last_output@ == output@,
            match r {
                Some(text) => text == output && observed(old(self).last_output@, output@) == Some(text@),
                None => observed(old(self).last_output@, output@) is None,
            },
    {
        if output == self.last_output {
            None
        } else {
            self.last_output = output.clone();
            Some(output)
        }
    }
}

proof fn lemma_printed_one(last: Seq<char>, output: Seq<char>)
    ensures
        printed(last, seq![output]) == (match observed(last, output) {
            Some(text) => seq![text],
            None => Seq::<Seq<char>>::empty(),
        }),
{
    let outputs = seq![output];
    assert(outputs.drop_last() =~= Seq::<Seq<char>>::empty());
    assert(printed(last, Seq::<Seq<char>>::empty()) == Seq::<Seq<char>>::empty());
    assert(outputs.last() == output);
    assert(Seq::<Seq<char>>::empty().push(output) =~= seq![output]);
}

/// Of two consecutive renders after a different last output, an equal pair
/// prints once and a differing pair prints twice, in order.
pub proof fn lemma_consecutive_renders(last: Seq<char>, first: Seq<char>, second: Seq<char>)
    requires
        first != last,
    ensures
        first == second ==> printed(last, seq![first, second]) == seq![first],
        first != second ==> printed(last, seq![first, second]) == seq![first, second],
{
    let outputs = seq![first, second];
    assert(outputs.drop_last() =~= seq![first]);
    lemma_printed_one(last, first);
    assert(seq![first].push(second) =~= seq![first, second]);
}

/// How the format command runs.
#[derive(PartialEq, Eq, Structural, Clone, Copy, Debug)]
pub enum Mode {
    /// Render once and print.
    Once,
    /// Re-render every so many milliseconds, printing each change.
    Watch(u32),
}

/// Whether `c` is a decimal digit.
pub open spec fn is_digit(c: char) -> bool {
    '0' <= c && c <= '9'
}

/// The value of a sequence of decimal digits.
pub open spec fn digits_value(d: Seq<char>) -> nat
    decreases d.len(),
{
    if d.len() == 0 {
        0
    } else {
        digits_value(d.drop_last()) * 10 + ((d.last() as u32) - ('0' as u32)) as nat
    }
}

/// `s` without a leading `+`.
pub open spec fn unsigned_digits(s: Seq<char>) -> Seq<char> {
    if s.len() > 0 && s[0] == '+' { s.drop_first() } else { s }
}

/// Every character of `d` is a decimal digit.
pub open spec fn all_digits(d: Seq<char>) -> bool {
    forall|i: int| 0 <= i < d.len() ==> is_digit(#[trigger] d[i])
}

/// The unsigned 32-bit integer that `s` writes: an optional `+` followed by
/// at least one decimal digit and nothing else, of a value that fits.
pub open spec fn parse_u32_spec(s: Seq<char>) -> Option<u32> {
    let d = unsigned_digits(s);
    if d.len() > 0 && all_digits(d) && digits_value(d) <= u32::MAX {
        Some(digits_value(d) as u32)
    } else {
        None
    }
}

proof fn lemma_digits_value_grows(d: Seq<char>, k: int)
    requires
        0 <= k <= d.len(),
        forall|i: int| 0 <= i < d.len() ==> is_digit(#[trigger] d[i]),
    ensures
        digits_value(d.subrange(0, k)) <= digits_value(d),
    decreases d.len() - k,
{
    if k < d.len() {
        lemma_digits_value_grows(d, k + 1);
        let p = d.subrange(0, k + 1);
        assert(p.drop_last() =~= d.subrange(0, k));
        assert(is_digit(d[k]));
    } else {
        assert(d.subrange(0, k) =~= d);
    }
}

/// Parses a watch interval in milliseconds, as `u32::from_str` does.
pub fn parse_interval(s: &str) -> (r: Option<u32>)
    ensures
        r == parse_u32_spec(s@),
{
    let len = s.unicode_len();
    let mut start: usize = 0;
    if len > 0 && s.get_char(0) == '+' {
        start = 1;
    }
    let ghost d = unsigned_digits(s@);
    assert(d =~= s@.subrange(start as int, len as int));
    if start == len {
        return None;
    }
    let mut acc: u64 = 0;
    let mut i: usize = start;
    while i < len
        invariant
            start <= i <= len,
            len == s@.len(),
            d =~= s@.subrange(start as int, len as int),
            d == unsigned_digits(s@),
            forall|j: int| 0 <= j < i - start ==> is_digit(#[trigger] d[j]),
            acc as nat == digits_value(d.subrange(0, i - start)),
            acc <= u32::MAX,
        decreases len - i,
    {
        let c = s.get_char(i);
        assert(d[i - start] == c);
        if !('0' <= c && c <= '9') {
            assert(!is_digit(d[i - start]));
            assert(!all_digits(d));
            return None;
        }
        let digit: u64 = ((c as u32) - ('0' as u32)) as u64;
        proof {
            let p = d.subrange(0, i - start + 1);
            assert(p.drop_last() =~= d.subrange(0, i - start));
            assert(p.last() == c);
        }
        acc = acc * 10 + digit;
        assert(acc as nat == digits_value(d.subrange(0, i - start + 1)));
        if acc > 4294967295u64 {
            proof {
                if all_digits(d) {
                    lemma_digits_value_grows(d, i - start + 1);
                }
            }
            return None;
        }
        i = i + 1;
    }
    assert(d.subrange(0, len - start) =~= d);
    Some(acc as u32)
}

/// How the format command runs: once, or, when watching, at the interval
/// given, where it is a valid count of milliseconds, else at the default.
pub fn run(watch: bool, watch_interval: &str) -> (r: Mode)
    ensures
        !watch ==> r == Mode::Once,
        watch ==> r == Mode::Watch(match parse_u32_spec(watch_interval@) {
            Some(ms) => ms,
            None => DEFAULT_INTERVAL_MS,
        }),
{
    if watch {
        match parse_interval(watch_interval) {
            Some(ms) => Mode::Watch(ms),
            None => Mode::Watch(DEFAULT_INTERVAL_MS),
        }
    } else {
        Mode::Once
    }
}

} // verus!
