//! Queues made from lists.

use std::collections::VecDeque;

use vstd::prelude::*;

verus! {

/// A queue that gives `items` out in their order.
pub fn queue_of<T>(items: Vec<T>) -> (queue: VecDeque<T>)
    ensures
        queue@ == items@,
{
    let ghost all = items@;
    let mut items = items;
    let mut queue: VecDeque<T> = VecDeque::new();
    while items.len() > 0
        invariant
            items@ + queue@ == all,
        decreases items@.len(),
    {
        let ghost before = items@ + queue@;
        if let Some(item) = items.pop() {
            queue.push_front(item);
        }
        assert(items@ + queue@ =~= before);
    }
    assert(items@ + queue@ =~= queue@);
    queue
}

} // verus!
