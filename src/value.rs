//! The values that template helpers receive: null, booleans, numbers,
//! strings and ordered sequences, with the text each one renders to.
use vstd::prelude::*;
use vstd::string::*;

verus! {

broadcast use vstd::seq::group_seq_axioms, vstd::std_specs::vec::group_vec_axioms;

/// A number as the template context carries it.
#[derive(Debug)]
pub enum Number {
    /// A non-negative integer.
    PosInt(u64),
    /// A signed integer (negative in practice).
    NegInt(i64),
    /// A number with a fractional part, held as its canonical decimal text.
    Float(String),
}

/// A template value.
#[derive(Debug)]
pub enum Value {
    Null,
    Bool(bool),
    Number(Number),
    String(String),
    Array(Vec<Value>),
}

/// The character of a single decimal digit.
pub open spec fn digit_char(d: nat) -> char {
    if d == 0 { '0' }
    else if d == 1 { '1' }
    else if d == 2 { '2' }
    else if d == 3 { '3' }
    else if d == 4 { '4' }
    else if d == 5 { '5' }
    else if d == 6 { '6' }
    else if d == 7 { '7' }
    else if d == 8 { '8' }
    else { '9' }
}

/// The decimal digits of `n`, most significant first, without leading zeros.
pub open spec fn decimal(n: nat) -> Seq<char>
    decreases n,
{
    if n < 10 {
        seq![digit_char(n)]
    } else {
        decimal(n / 10).push(digit_char(n % 10))
    }
}

/// The canonical text of a number.
pub open spec fn number_text(n: Number) -> Seq<char> {
    match n {
        Number::PosInt(u) => decimal(u as nat),
        Number::NegInt(i) => if i < 0 {
            seq!['-'] + decimal((-i) as nat)
        } else {
            decimal(i as nat)
        },
        Number::Float(s) => s@,
    }
}

pub open spec fn true_text() -> Seq<char> {
    seq!['t', 'r', 'u', 'e']
}

pub open spec fn false_text() -> Seq<char> {
    seq!['f', 'a', 'l', 's', 'e']
}

/// The text a value renders to: nothing for null, `true`/`false`, the
/// number's decimal text, a string verbatim, and a sequence as `[` followed by
/// each element's text and `, `, then `]`.
pub open spec fn render_value(v: Value) -> Seq<char>
    decreases v,
{
    match v {
        Value::Null => Seq::empty(),
        Value::Bool(b) => if b { true_text() } else { false_text() },
        Value::Number(n) => number_text(n),
        Value::String(s) => s@,
        Value::Array(a) => seq!['['] + render_items(a@) + seq![']'],
    }
}

/// Each element's text followed by `, `, in order.
pub open spec fn render_items(items: Seq<Value>) -> Seq<char>
    decreases items,
{
    if items.len() == 0 {
        Seq::empty()
    } else {
        render_items(items.drop_last()) + render_value(items.last()) + seq![',', ' ']
    }
}

/// Whether a value counts as absent.
pub open spec fn is_null_spec(v: Value) -> bool {
    v is Null
}

/// The value as a non-negative integer, where it is one.
pub open spec fn as_u64_spec(v: Value) -> Option<u64> {
    match v {
        Value::Number(Number::PosInt(u)) => Some(u),
        Value::Number(Number::NegInt(i)) => if i >= 0 { Some(i as u64) } else { None },
        _ => None,
    }
}

fn digit_str(d: u64) -> (r: &'static str)
    requires
        d < 10,
    ensures
        r@ == seq![digit_char(d as nat)],
{
    proof {
        reveal_strlit("0");
        reveal_strlit("1");
        reveal_strlit("2");
        reveal_strlit("3");
        reveal_strlit("4");
        reveal_strlit("5");
        reveal_strlit("6");
        reveal_strlit("7");
        reveal_strlit("8");
        reveal_strlit("9");
    }
    if d == 0 { "0" }
    else if d == 1 { "1" }
    else if d == 2 { "2" }
    else if d == 3 { "3" }
    else if d == 4 { "4" }
    else if d == 5 { "5" }
    else if d == 6 { "6" }
    else if d == 7 { "7" }
    else if d == 8 { "8" }
    else { "9" }
}

/// Appends the decimal digits of `n` to `out`.
pub fn push_decimal(out: &mut String, n: u64)
    ensures
        final(out)@ == old(out)@ + decimal(n as nat),
    decreases n,
{
    if n >= 10 {
        push_decimal(out, n / 10);
    }
    out.append(digit_str(n % 10));
    assert(final(out)@ =~= old(out)@ + decimal(n as nat));
}

impl Number {
    /// Appends the number's canonical text to `out`.
    pub fn push_text(&self, out: &mut String)
        ensures
            final(out)@ == old(out)@ + number_text(*self),
    {
        match self {
            Number::PosInt(u) => push_decimal(out, *u),
            Number::NegInt(i) => {
                if *i < 0 {
                    proof {
                        reveal_strlit("-");
                    }
                    out.append("-");
                    let magnitude: u64 = if *i == i64::MIN {
                        9223372036854775808u64
                    } else {
                        (-*i) as u64
                    };
                    push_decimal(out, magnitude);
                    assert(final(out)@ =~= old(out)@ + number_text(*self));
                } else {
                    push_decimal(out, *i as u64);
                }
            },
            Number::Float(s) => out.append(s.as_str()),
        }
    }
}

impl Value {
    /// Whether the value counts as absent: only null does.
    pub fn is_null(&self) -> (r: bool)
        ensures
            r == is_null_spec(*self),
    {
        match self {
            Value::Null => true,
            _ => false,
        }
    }

    /// The value as a non-negative integer, if it is one.
    pub fn as_u64(&self) -> (r: Option<u64>)
        ensures
            r == as_u64_spec(*self),
    {
        match self {
            Value::Number(Number::PosInt(u)) => Some(*u),
            Value::Number(Number::NegInt(i)) => if *i >= 0 {
                Some(*i as u64)
            } else {
                None
            },
            _ => None,
        }
    }

    /// Appends the value's rendered text to `out`.
    pub fn push_rendered(&self, out: &mut String)
        ensures
            final(out)@ == old(out)@ + render_value(*self),
        decreases self,
    {
        match self {
            Value::Null => {},
            Value::Bool(b) => {
                proof {
                    reveal_strlit("true");
                    reveal_strlit("false");
                }
                if *b {
                    out.append("true");
                } else {
                    out.append("false");
                }
            },
            Value::Number(n) => n.push_text(out),
            Value::String(s) => out.append(s.as_str()),
            Value::Array(items) => {
                proof {
                    reveal_strlit("[");
                    reveal_strlit("]");
                }
                out.append("[");
                let ghost start = out@;
                let mut i: usize = 0;
                while i < items.len()
                    invariant
                        *self == Value::Array(*items),
                        i <= items@.len(),
                        out@ == start + render_items(items@.subrange(0, i as int)),
                    decreases items@.len() - i,
                {
                    let item = &items[i];
                    proof {
                        let v = *self;
                        assert(decreases_to!(v => v->Array_0));
                        assert(decreases_to!(v->Array_0 => v->Array_0@));
                        assert(decreases_to!(v->Array_0@ => v->Array_0@[i as int]));
                        assert(decreases_to!(v => *item));
                    }
                    let ghost before = out@;
                    item.push_rendered(out);
                    out.append(", ");
                    proof {
                        reveal_strlit(", ");
                        assert(", "@ =~= seq![',', ' ']);
                        assert(out@ == before + render_value(*item) + seq![',', ' ']);
                        let s = items@.subrange(0, i + 1);
                        assert(s.drop_last() =~= items@.subrange(0, i as int));
                        assert(s.last() == items@[i as int]);
                        assert(out@ =~= start + render_items(s));
                    }
                    i = i + 1;
                }
                assert(items@.subrange(0, items@.len() as int) =~= items@);
                out.append("]");
                assert(final(out)@ =~= old(out)@ + render_value(*self));
            },
        }
    }

    /// The value's rendered text.
    pub fn render(&self) -> (r: String)
        ensures
            r@ == render_value(*self),
    {
        let mut out = String::new();
        self.push_rendered(&mut out);
        assert(out@ =~= render_value(*self));
        out
    }
}

} // verus!
