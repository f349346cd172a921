//! The `join` helper: its trailing parameters, sequences spliced in and
//! nulls left out, rendered with a separator between them.
use vstd::prelude::*;
use vstd::string::*;
use crate::value::{Value, render_value, is_null_spec};

verus! {

broadcast use vstd::seq::group_seq_axioms;

/// The elements of `v` when it stands among the joined parameters: a
/// sequence gives its elements, anything else gives itself.
pub open spec fn expand(v: Value) -> Seq<Value> {
    match v {
        Value::Array(items) => items@,
        _ => seq![v],
    }
}

/// The parameters with each sequence spliced in place, one level deep.
pub open spec fn flatten(params: Seq<Value>) -> Seq<Value>
    decreases params.len(),
{
    if params.len() == 0 {
        Seq::empty()
    } else {
        flatten(params.drop_last()) + expand(params.last())
    }
}

/// The elements that are not null, in order.
pub open spec fn present(s: Seq<Value>) -> Seq<Value>
    decreases s.len(),
{
    if s.len() == 0 {
        Seq::empty()
    } else if is_null_spec(s.last()) {
        present(s.drop_last())
    } else {
        present(s.drop_last()).push(s.last())
    }
}

/// The rendered elements with `sep` between consecutive ones.
pub open spec fn joined(sep: Seq<char>, s: Seq<Value>) -> Seq<char>
    decreases s.len(),
{
    if s.len() == 0 {
        Seq::empty()
    } else if s.len() == 1 {
        render_value(s[0])
    } else {
        joined(sep, s.drop_last()) + sep + render_value(s.last())
    }
}

/// What the helper renders: nothing without parameters; else the first
/// parameter, rendered, is the separator of the elements that follow.
pub open spec fn join_helper_spec(params: Seq<Value>) -> Seq<char> {
    if params.len() == 0 {
        Seq::empty()
    } else {
        joined(render_value(params[0]), present(flatten(params.subrange(1, params.len() as int))))
    }
}

/// Appends `v`, unless it is null, to the joined text of `kept`.
fn push_element(out: &mut String, sep: &String, v: &Value, is_first: bool, Ghost(kept): Ghost<Seq<Value>>) -> (r: bool)
    requires
        old(out)@ == joined(sep@, kept),
        is_first == (kept.len() == 0),
    ensures
        final(out)@ == joined(sep@, if is_null_spec(*v) { kept } else { kept.push(*v) }),
        r == ((if is_null_spec(*v) { kept } else { kept.push(*v) }).len() == 0),
{
    if v.is_null() {
        is_first
    } else {
        if !is_first {
            out.append(sep.as_str());
        }
        v.push_rendered(out);
        proof {
            let k = kept.push(*v);
            assert(k.drop_last() =~= kept);
            assert(final(out)@ =~= joined(sep@, k));
        }
        false
    }
}

/// The `join` helper: renders the elements of every parameter after the
/// first, with each sequence spliced in one level deep and every null left
/// out, separated by the rendered first parameter. Without parameters, or
/// with no element left, it renders nothing.
pub fn helper(params: &Vec<Value>) -> (r: String)
    ensures
        r@ == join_helper_spec(params@),
{
    let mut out = String::new();
    if params.len() == 0 {
        return out;
    }
    let sep = params[0].render();
    let ghost rest = params@.subrange(1, params@.len() as int);
    let ghost mut kept: Seq<Value> = Seq::empty();
    let mut is_first = true;
    let mut i: usize = 1;
    while i < params.len()
        invariant
            1 <= i <= params@.len(),
            rest == params@.subrange(1, params@.len() as int),
            kept == present(flatten(params@.subrange(1, i as int))),
            out@ == joined(sep@, kept),
            is_first == (kept.len() == 0),
        decreases params@.len() - i,
    {
        let ghost base = flatten(params@.subrange(1, i as int));
        proof {
            assert(params@.subrange(1, i + 1).drop_last() =~= params@.subrange(1, i as int));
            assert(params@.subrange(1, i + 1).last() == params@[i as int]);
        }
        match &params[i] {
            Value::Array(items) => {
                let mut j: usize = 0;
                while j < items.len()
                    invariant
                        j <= items@.len(),
                        kept == present(base + items@.subrange(0, j as int)),
                        out@ == joined(sep@, kept),
                        is_first == (kept.len() == 0),
                    decreases items@.len() - j,
                {
                    proof {
                        assert((base + items@.subrange(0, j + 1)).drop_last()
                            =~= base + items@.subrange(0, j as int));
                        assert((base + items@.subrange(0, j + 1)).last() == items@[j as int]);
                    }
                    is_first = push_element(&mut out, &sep, &items[j], is_first, Ghost(kept));
                    proof {
                        kept = if is_null_spec(items@[j as int]) { kept } else { kept.push(items@[j as int]) };
                    }
                    j = j + 1;
                }
                proof {
                    assert(items@.subrange(0, items@.len() as int) =~= items@);
                }
            },
            other => {
                proof {
                    assert((base + seq![*other]).drop_last() =~= base);
                    assert((base + seq![*other]).last() == *other);
                }
                is_first = push_element(&mut out, &sep, other, is_first, Ghost(kept));
                proof {
                    kept = if is_null_spec(*other) { kept } else { kept.push(*other) };
                }
            },
        }
        i = i + 1;
    }
    proof {
        assert(params@.subrange(1, i as int) =~= rest);
    }
    out
}

proof fn lemma_present_all_null(s: Seq<Value>)
    requires
        forall|i: int| 0 <= i < s.len() ==> is_null_spec(#[trigger] s[i]),
    ensures
        present(s) == Seq::<Value>::empty(),
    decreases s.len(),
{
    if s.len() > 0 {
        lemma_present_all_null(s.drop_last());
    }
}

/// Joining one sequence renders its elements that are not null, separated by
/// the rendered separator.
pub proof fn lemma_join_sequence(sep: Value, items: Vec<Value>)
    ensures
        join_helper_spec(seq![sep, Value::Array(items)]) == joined(render_value(sep), present(items@)),
{
    let params = seq![sep, Value::Array(items)];
    let rest = params.subrange(1, 2);
    assert(rest =~= seq![Value::Array(items)]);
    assert(rest.drop_last() =~= Seq::<Value>::empty());
    assert(flatten(Seq::<Value>::empty()) == Seq::<Value>::empty());
    assert(rest.last() == Value::Array(items));
    assert(flatten(rest) =~= items@);
}

/// Where no element that follows the separator is present (there are none,
/// the sequences are empty, or all is null), `join` renders nothing.
pub proof fn lemma_join_nothing_present(params: Seq<Value>)
    requires
        params.len() > 0,
        forall|i: int| 0 <= i < flatten(params.subrange(1, params.len() as int)).len()
            ==> is_null_spec(#[trigger] flatten(params.subrange(1, params.len() as int))[i]),
    ensures
        join_helper_spec(params) == Seq::<char>::empty(),
{
    lemma_present_all_null(flatten(params.subrange(1, params.len() as int)));
}

} // verus!
