//! The `time` helper: a count of seconds as `MM:SS` or `HH:MM:SS`.
use vstd::prelude::*;
use vstd::string::*;
use crate::value::{Value, Number, decimal, as_u64_spec, push_decimal};

verus! {

pub const MINUTE: u64 = 60;

pub const HOUR: u64 = 3600;

/// Which fields a rendered duration has.
#[derive(PartialEq, Eq, Structural, Clone, Copy, Debug)]
pub enum Width {
    /// Minutes and seconds.
    Minute,
    /// Hours, minutes and seconds.
    Hour,
    /// No width could be read from the value.
    Invalid,
}

pub open spec fn hour_word() -> Seq<char> {
    seq!['h', 'o', 'u', 'r']
}

pub open spec fn minute_word() -> Seq<char> {
    seq!['m', 'i', 'n', 'u', 't', 'e']
}

/// The width that a value asks for: a count of seconds up to an hour asks
/// for minutes, a longer one for hours; the words `hour` and `minute` name
/// their width; anything else names none.
pub open spec fn width_spec(v: Value) -> Width {
    match v {
        Value::Number(_) => match as_u64_spec(v) {
            Some(u) => if u <= HOUR { Width::Minute } else { Width::Hour },
            None => Width::Invalid,
        },
        Value::String(s) => if s@ == hour_word() {
            Width::Hour
        } else if s@ == minute_word() {
            Width::Minute
        } else {
            Width::Invalid
        },
        _ => Width::Invalid,
    }
}

/// `n` in decimal, zero-padded to at least two digits.
pub open spec fn two_digits(n: nat) -> Seq<char> {
    if n < 10 { seq!['0'] + decimal(n) } else { decimal(n) }
}

/// The text of `seconds` at the given width; no valid width counts as minutes.
pub open spec fn time_text(seconds: nat, width: Width) -> Seq<char> {
    let h = seconds / 3600;
    let m = seconds % 3600 / 60;
    let s = seconds % 60;
    match width {
        Width::Hour => two_digits(h) + seq![':'] + two_digits(m) + seq![':'] + two_digits(s),
        _ => two_digits(m) + seq![':'] + two_digits(s),
    }
}

/// The width resolved from an optional hint and the value itself: a hint
/// that names a width wins, otherwise the value decides.
pub open spec fn resolved_width(value: Value, hint: Option<Value>) -> Width {
    match hint {
        Some(h) => if width_spec(h) != Width::Invalid { width_spec(h) } else { width_spec(value) },
        None => width_spec(value),
    }
}

/// What the helper renders for its parameters: nothing without a first
/// parameter or when it is no non-negative integer, else the duration at the
/// resolved width.
pub open spec fn time_helper_spec(params: Seq<Value>) -> Seq<char> {
    if params.len() == 0 {
        Seq::empty()
    } else {
        match as_u64_spec(params[0]) {
            Some(secs) => time_text(
                secs as nat,
                resolved_width(params[0], if params.len() > 1 { Some(params[1]) } else { None }),
            ),
            None => Seq::empty(),
        }
    }
}

fn word_is(s: &String, word: &str) -> (r: bool)
    ensures
        r == (s@ == word@),
{
    let w = String::from_str(word);
    *s == w
}

/// The width that a value asks for.
pub fn width_of_value(val: &Value) -> (r: Width)
    ensures
        r == width_spec(*val),
{
    proof {
        reveal_strlit("hour");
        reveal_strlit("minute");
    }
    match val {
        Value::Number(_) => match val.as_u64() {
            Some(u) => if u <= HOUR { Width::Minute } else { Width::Hour },
            None => Width::Invalid,
        },
        Value::String(s) => {
            assert("hour"@ =~= hour_word());
            assert("minute"@ =~= minute_word());
            if word_is(s, "hour") {
                Width::Hour
            } else if word_is(s, "minute") {
                Width::Minute
            } else {
                Width::Invalid
            }
        },
        _ => Width::Invalid,
    }
}

fn push_two_digits(out: &mut String, n: u64)
    ensures
        final(out)@ == old(out)@ + two_digits(n as nat),
{
    if n < 10 {
        proof {
            reveal_strlit("0");
        }
        out.append("0");
    }
    push_decimal(out, n);
    assert(final(out)@ =~= old(out)@ + two_digits(n as nat));
}

/// Renders `seconds` at the given width: `HH:MM:SS` for hours, `MM:SS`
/// otherwise, each field zero-padded to two digits.
pub fn render_time(seconds: u64, width: Width) -> (r: String)
    ensures
        r@ == time_text(seconds as nat, width),
{
    let whole_hours = seconds / HOUR;
    let rest = seconds % HOUR;
    let whole_minutes = rest / MINUTE;
    let secs = seconds % MINUTE;
    assert(rest % 60 == seconds % 60) by (nonlinear_arith)
        requires rest == seconds % 3600;
    proof {
        reveal_strlit(":");
    }
    let mut out = String::new();
    match width {
        Width::Hour => {
            push_two_digits(&mut out, whole_hours);
            out.append(":");
            push_two_digits(&mut out, whole_minutes);
            out.append(":");
            push_two_digits(&mut out, secs);
        },
        _ => {
            push_two_digits(&mut out, whole_minutes);
            out.append(":");
            push_two_digits(&mut out, secs);
        },
    }
    assert(out@ =~= time_text(seconds as nat, width));
    out
}

/// The `time` helper: renders its first parameter, a count of seconds, at the
/// width named by its second parameter or, failing that, by the count itself.
/// It renders nothing where the first parameter is missing or is no
/// non-negative integer.
pub fn helper(params: &Vec<Value>) -> (r: String)
    ensures
        r@ == time_helper_spec(params@),
{
    if params.len() == 0 {
        return String::new();
    }
    let time = &params[0];
    match time.as_u64() {
        Some(seconds) => {
            let own = width_of_value(time);
            let width = if params.len() > 1 {
                let hinted = width_of_value(&params[1]);
                if hinted != Width::Invalid { hinted } else { own }
            } else {
                own
            };
            render_time(seconds, width)
        },
        None => String::new(),
    }
}

/// Without a hint, a count up to an hour renders as `MM:SS` and a longer one
/// as `HH:MM:SS`.
pub proof fn lemma_time_dynamic_width(seconds: u64)
    ensures
        seconds <= HOUR ==> time_helper_spec(seq![Value::Number(Number::PosInt(seconds))])
            == time_text(seconds as nat, Width::Minute),
        seconds > HOUR ==> time_helper_spec(seq![Value::Number(Number::PosInt(seconds))])
            == time_text(seconds as nat, Width::Hour),
{
}

/// The hint `hour` renders hours, minutes and seconds whatever the count.
pub proof fn lemma_time_hour_hint(seconds: u64, hint: String)
    requires
        hint@ == hour_word(),
    ensures
        time_helper_spec(seq![Value::Number(Number::PosInt(seconds)), Value::String(hint)])
            == time_text(seconds as nat, Width::Hour),
{
}

/// A hint that names no width (null, or a string other than `hour` and
/// `minute`) leaves the width to the count itself.
pub proof fn lemma_time_bad_hint(value: Value, hint: Value)
    requires
        hint is Null || (hint is String && hint->String_0@ != hour_word() && hint->String_0@ != minute_word()),
    ensures
        time_helper_spec(seq![value, hint]) == time_helper_spec(seq![value]),
{
}

/// A first parameter that is not a non-negative integer renders nothing.
pub proof fn lemma_time_bad_value(value: Value, rest: Seq<Value>)
    requires
        as_u64_spec(value) is None,
    ensures
        time_helper_spec(seq![value] + rest) == Seq::<char>::empty(),
{
    assert((seq![value] + rest)[0] == value);
}

} // verus!
