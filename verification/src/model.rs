//! The counter's state and its transition function.

use vstd::prelude::*;

verus! {

/// The application's whole state: a single signed counter.
#[derive(Debug, Clone, Copy, PartialEq, Eq, Structural)]
pub struct Model {
    pub value: i32,
}

/// One user intent, dispatched by the runtime when a button is pressed.
/// The variant set is closed: every message is one of these two.
#[derive(Debug, Clone, Copy, PartialEq, Eq, Structural)]
pub enum Message {
    Increment,
    Decrement,
}

impl Default for Model {
    /// A fresh counter starts at zero.
    fn default() -> (m: Model)
        ensures
            m.value == 0,
    {
        Model { value: 0 }
    }
}

/// One transition of the counter value. Arithmetic wraps at the ends of the
/// `i32` range: incrementing `i32::MAX` yields `i32::MIN`, and decrementing
/// `i32::MIN` yields `i32::MAX`.
pub open spec fn spec_update(v: i32, m: Message) -> i32 {
    match m {
        Message::Increment => if v == i32::MAX { i32::MIN } else { (v + 1) as i32 },
        Message::Decrement => if v == i32::MIN { i32::MAX } else { (v - 1) as i32 },
    }
}

/// Applies one message to the counter: `Increment` adds one, `Decrement`
/// subtracts one, wrapping at the ends of the `i32` range.
pub fn update(counter: &mut Model, message: Message)
    ensures
        final(counter).value == spec_update(old(counter).value, message),
{
    match message {
        Message::Increment => {
            if counter.value == i32::MAX {
                counter.value = i32::MIN;
            } else {
                counter.value = counter.value + 1;
            }
        },
        Message::Decrement => {
            if counter.value == i32::MIN {
                counter.value = i32::MAX;
            } else {
                counter.value = counter.value - 1;
            }
        },
    }
}

/// The counter after a whole sequence of messages, applied first to last.
pub open spec fn apply_msgs(v: i32, msgs: Seq<Message>) -> i32
    decreases msgs.len(),
{
    if msgs.len() == 0 {
        v
    } else {
        apply_msgs(spec_update(v, msgs[0]), msgs.drop_first())
    }
}

/// The contribution of one message to the net count: +1 or -1.
pub open spec fn msg_delta(m: Message) -> int {
    match m {
        Message::Increment => 1,
        Message::Decrement => -1,
    }
}

/// The net count of a message sequence: increments minus decrements.
pub open spec fn net_count(msgs: Seq<Message>) -> int
    decreases msgs.len(),
{
    if msgs.len() == 0 {
        0
    } else {
        msg_delta(msgs[0]) + net_count(msgs.drop_first())
    }
}

/// Holds when no step of the sequence leaves the `i32` range, so that no
/// transition wraps.
pub open spec fn no_overflow(v: int, msgs: Seq<Message>) -> bool
    decreases msgs.len(),
{
    if msgs.len() == 0 {
        true
    } else {
        i32::MIN <= v + msg_delta(msgs[0]) <= i32::MAX && no_overflow(
            v + msg_delta(msgs[0]),
            msgs.drop_first(),
        )
    }
}

/// Absent overflow, the counter after a sequence of messages equals the
/// starting value plus the net count of increments over decrements.
pub proof fn lemma_apply_msgs_is_net_count(v: i32, msgs: Seq<Message>)
    requires
        no_overflow(v as int, msgs),
    ensures
        apply_msgs(v, msgs) as int == v + net_count(msgs),
    decreases msgs.len(),
{
    if msgs.len() > 0 {
        let v1 = spec_update(v, msgs[0]);
        assert(v1 as int == v + msg_delta(msgs[0]));
        lemma_apply_msgs_is_net_count(v1, msgs.drop_first());
    }
}

/// From a fresh counter, absent overflow, the final value is exactly the
/// net count of `Increment` messages minus `Decrement` messages.
pub proof fn lemma_counter_counts_messages(msgs: Seq<Message>)
    requires
        no_overflow(0, msgs),
    ensures
        apply_msgs(0i32, msgs) as int == net_count(msgs),
{
    lemma_apply_msgs_is_net_count(0i32, msgs);
}

/// An empty message sequence leaves the counter at its starting value; in
/// particular, a fresh counter stays at its default of zero.
pub proof fn lemma_no_messages_no_change(v: i32)
    ensures
        apply_msgs(v, Seq::<Message>::empty()) == v,
{
}

/// `Increment` and `Decrement` are inverses, in either order. With the
/// wrapping policy this holds at the ends of the `i32` range as well.
pub proof fn lemma_increment_decrement_inverse(v: i32)
    ensures
        spec_update(spec_update(v, Message::Increment), Message::Decrement) == v,
        spec_update(spec_update(v, Message::Decrement), Message::Increment) == v,
{
}

} // verus!
