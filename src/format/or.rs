//! The `or` helper: the first parameter that is present, or else the block
//! that the helper encloses.
use vstd::prelude::*;
use crate::value::{Value, render_value, is_null_spec};

verus! {

/// What the `or` helper produces.
#[derive(PartialEq, Eq, Debug)]
pub enum Fallback {
    /// The rendered text of the first present parameter.
    Text(String),
    /// Every parameter is null: the enclosed block is rendered in its place.
    Block,
    /// Every parameter is null and no block is enclosed: nothing is rendered.
    Nothing,
}

/// `i` is the position of the first parameter that is not null.
pub open spec fn is_first_present(params: Seq<Value>, i: int) -> bool {
    &&& 0 <= i < params.len()
    &&& !is_null_spec(params[i])
    &&& forall|j: int| 0 <= j < i ==> is_null_spec(#[trigger] params[j])
}

/// Every parameter is null (or there is none).
pub open spec fn all_null(params: Seq<Value>) -> bool {
    forall|j: int| 0 <= j < params.len() ==> is_null_spec(#[trigger] params[j])
}

/// The `or` helper: the text of the first parameter that is not null, whatever
/// its type or truth; where all are null, the enclosed block if there is one,
/// and nothing otherwise.
pub fn helper(params: &Vec<Value>, has_block: bool) -> (r: Fallback)
    ensures
        match r {
            Fallback::Text(t) => exists|i: int|
                is_first_present(params@, i) && t@ == render_value(#[trigger] params@[i]),
            Fallback::Block => all_null(params@) && has_block,
            Fallback::Nothing => all_null(params@) && !has_block,
        },
{
    let mut i: usize = 0;
    while i < params.len()
        invariant
            i <= params@.len(),
            forall|j: int| 0 <= j < i ==> is_null_spec(#[trigger] params@[j]),
        decreases params@.len() - i,
    {
        if !params[i].is_null() {
            let text = params[i].render();
            assert(is_first_present(params@, i as int));
            return Fallback::Text(text);
        }
        i = i + 1;
    }
    if has_block {
        Fallback::Block
    } else {
        Fallback::Nothing
    }
}

} // verus!
