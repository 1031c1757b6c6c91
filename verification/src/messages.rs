//! The pool of labels that events are given.

use vstd::prelude::*;
use vstd::string::StringExecFns;
use rand::rngs::ThreadRng;
use crate::stream::draw_below;

verus! {

/// How many labels the pool holds.
pub const MESSAGE_COUNT: u32 = 20;

/// The labels of the pool, in their order.
pub open spec fn message_pool() -> Seq<Seq<char>> {
    seq![
        "[AutoGen] Add new feature implementation"@,
        "[AutoGen] Fix critical bug in core logic"@,
        "[AutoGen] Refactor existing codebase"@,
        "[AutoGen] Add comprehensive tests"@,
        "[AutoGen] Update documentation"@,
        "[AutoGen] Optimize performance bottleneck"@,
        "[AutoGen] Implement user feedback"@,
        "[AutoGen] Fix merge conflicts"@,
        "[AutoGen] Add error handling"@,
        "[AutoGen] Update dependencies"@,
        "[AutoGen] Clean up code structure"@,
        "[AutoGen] Add logging and monitoring"@,
        "[AutoGen] Fix security vulnerability"@,
        "[AutoGen] Improve user interface"@,
        "[AutoGen] Add API endpoints"@,
        "[AutoGen] Fix failing tests"@,
        "[AutoGen] Add database migrations"@,
        "[AutoGen] Improve code coverage"@,
        "[AutoGen] Add configuration options"@,
        "[AutoGen] Fix production issue"@,
    ]
}

/// The label at a place in the pool; places count from 0 and wrap around.
pub open spec fn message_text(index: int) -> Seq<char> {
    message_pool()[index % 20]
}

/// Whether a text is one of the labels of the pool.
pub open spec fn is_pool_message(text: Seq<char>) -> bool {
    exists|index: int| 0 <= index < MESSAGE_COUNT && text == #[trigger] message_text(index)
}

/// Gives the label at a place in the pool; places wrap around.
pub fn message_at(index: u32) -> (r: String)
    ensures
        r@ == message_text(index as int),
        is_pool_message(r@),
{
    let place: u32 = index % 20;
    let label = match place {
        0 => String::from_str("[AutoGen] Add new feature implementation"),
        1 => String::from_str("[AutoGen] Fix critical bug in core logic"),
        2 => String::from_str("[AutoGen] Refactor existing codebase"),
        3 => String::from_str("[AutoGen] Add comprehensive tests"),
        4 => String::from_str("[AutoGen] Update documentation"),
        5 => String::from_str("[AutoGen] Optimize performance bottleneck"),
        6 => String::from_str("[AutoGen] Implement user feedback"),
        7 => String::from_str("[AutoGen] Fix merge conflicts"),
        8 => String::from_str("[AutoGen] Add error handling"),
        9 => String::from_str("[AutoGen] Update dependencies"),
        10 => String::from_str("[AutoGen] Clean up code structure"),
        11 => String::from_str("[AutoGen] Add logging and monitoring"),
        12 => String::from_str("[AutoGen] Fix security vulnerability"),
        13 => String::from_str("[AutoGen] Improve user interface"),
        14 => String::from_str("[AutoGen] Add API endpoints"),
        15 => String::from_str("[AutoGen] Fix failing tests"),
        16 => String::from_str("[AutoGen] Add database migrations"),
        17 => String::from_str("[AutoGen] Improve code coverage"),
        18 => String::from_str("[AutoGen] Add configuration options"),
        _ => String::from_str("[AutoGen] Fix production issue"),
    };
    assert(label@ == message_text(place as int));
    label
}

/// Picks a label from the pool with the thread's generator, each label with
/// the same chance. The result is one of the pool, whatever is drawn.
pub fn get_random_message(rng: &mut ThreadRng) -> (r: String)
    ensures
        is_pool_message(r@),
{
    let index = draw_below(rng, MESSAGE_COUNT);
    message_at(index)
}

} // verus!
