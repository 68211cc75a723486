use crate::types::{height_lt, Height, IbcMessage};
use vstd::prelude::*;

verus! {

/// Some message of `msgs` needs the destination to certify `h`.
pub open spec fn requires_height(msgs: Seq<IbcMessage>, h: Height) -> bool {
    exists|k: int| 0 <= k < msgs.len() && msgs[k].source_height == Some(h)
}

pub open spec fn strictly_ascending(s: Seq<Height>) -> bool {
    forall|i: int, j: int| 0 <= i < j < s.len() ==> height_lt(#[trigger] s[i], #[trigger] s[j])
}

/// The distinct source heights that a batch requires, in ascending order.
pub fn source_heights(messages: &Vec<IbcMessage>) -> (r: Vec<Height>)
    ensures
        strictly_ascending(r@),
        forall|h: Height| r@.contains(h) <==> requires_height(messages@, h),
{
    let mut res: Vec<Height> = Vec::new();
    let mut i: usize = 0;
    while i < messages.len()
        invariant
            i <= messages.len(),
            strictly_ascending(res@),
            forall|h: Height|
                res@.contains(h) <==> requires_height(messages@.subrange(0, i as int), h),
        decreases messages.len() - i,
    {
        proof {
            assert forall|h: Height|
                requires_height(messages@.subrange(0, i + 1), h) <==> (requires_height(
                    messages@.subrange(0, i as int),
                    h,
                ) || messages@[i as int].source_height == Some(h)) by {
                let s0 = messages@.subrange(0, i as int);
                let s1 = messages@.subrange(0, i + 1);
                if requires_height(s1, h) {
                    let k = choose|k: int| 0 <= k < s1.len() && s1[k].source_height == Some(h);
                    if k < i {
                        assert(s0[k] == s1[k]);
                    }
                }
                if requires_height(s0, h) {
                    let k = choose|k: int| 0 <= k < s0.len() && s0[k].source_height == Some(h);
                    assert(s0[k] == s1[k]);
                }
                if messages@[i as int].source_height == Some(h) {
                    assert(s1[i as int] == messages@[i as int]);
                }
            }
        }
        let required = messages[i].source_height;
        match required {
            None => {},
            Some(h) => {
                let mut j: usize = 0;
                while j < res.len() && res[j].lt(&h)
                    invariant
                        j <= res.len(),
                        i < messages.len(),
                        messages@[i as int].source_height == Some(h),
                        strictly_ascending(res@),
                        forall|x: Height|
                            res@.contains(x) <==> requires_height(
                                messages@.subrange(0, i as int),
                                x,
                            ),
                        forall|x: Height|
                            requires_height(messages@.subrange(0, i + 1), x) <==> (
                            requires_height(messages@.subrange(0, i as int), x)
                                || messages@[i as int].source_height == Some(x)),
                        forall|k: int| 0 <= k < j ==> height_lt(#[trigger] res@[k], h),
                    decreases res.len() - j,
                {
                    j = j + 1;
                }
                if j < res.len() && res[j] == h {
                    assert(res@.contains(h));
                } else {
                    proof {
                        if j < res.len() {
                            assert(!height_lt(res@[j as int], h));
                            assert(height_lt(h, res@[j as int]));
                        }
                    }
                    let ghost old_res = res@;
                    res.insert(j, h);
                    proof {
                        assert forall|a: int, b: int| 0 <= a < b < res@.len() implies height_lt(
                            #[trigger] res@[a],
                            #[trigger] res@[b],
                        ) by {
                            if j < old_res.len() && b > j && a <= j {
                                assert(height_lt(h, old_res[j as int]));
                            }
                            if a < j && b > j {
                                assert(height_lt(old_res[a], h));
                            }
                        }
                        assert forall|x: Height| res@.contains(x) <==> (old_res.contains(x) || x
                            == h) by {
                            if res@.contains(x) {
                                let k = choose|k: int| 0 <= k < res@.len() && res@[k] == x;
                                if k < j {
                                    assert(old_res[k] == x);
                                } else if k > j {
                                    assert(old_res[k - 1] == x);
                                }
                            }
                            if old_res.contains(x) {
                                let k = choose|k: int| 0 <= k < old_res.len() && old_res[k] == x;
                                if k < j {
                                    assert(res@[k] == x);
                                } else {
                                    assert(res@[k + 1] == x);
                                }
                            }
                            if x == h {
                                assert(res@[j as int] == h);
                            }
                        }
                        assert forall|x: Height| res@.contains(x) <==> requires_height(
                            messages@.subrange(0, i + 1),
                            x,
                        ) by {
                            assert(res@.contains(x) <==> (old_res.contains(x) || x == h));
                            assert(old_res.contains(x) <==> requires_height(
                                messages@.subrange(0, i as int),
                                x,
                            ));
                        }
                    }
                }
            },
        }
        assert forall|x: Height|
            res@.contains(x) <==> requires_height(messages@.subrange(0, i + 1), x) by {
            if requires_height(messages@.subrange(0, i + 1), x) {
                if !requires_height(messages@.subrange(0, i as int), x) {
                    assert(required == Some(x));
                }
            }
        }
        i = i + 1;
    }
    assert(messages@.subrange(0, messages.len() as int) == messages@);
    res
}

/// Sends a batch behind the update-client messages that it needs.
///
/// The distinct required heights are computed when the batch is taken in;
/// the caller asks the update-client builder for each of them in turn and
/// hands back what it built; the combined batch puts all of those before the
/// caller's messages, and of the event lists that come back for it only the
/// trailing ones, one per caller message, are returned.
pub struct SendIbcMessagesWithUpdateClient {
    pub heights: Vec<Height>,
    pub next: usize,
    pub update_messages: Vec<IbcMessage>,
    pub messages: Vec<IbcMessage>,
}

/// The chain answered with another number of event lists than it was sent
/// messages.
#[derive(Clone, Copy, Debug, PartialEq, Eq, Structural)]
pub struct EventCountMismatch {
    pub update_count: usize,
    pub message_count: usize,
    pub received: usize,
}

impl SendIbcMessagesWithUpdateClient {
    pub open spec fn wf(&self) -> bool {
        &&& strictly_ascending(self.heights@)
        &&& forall|h: Height| self.heights@.contains(h) <==> requires_height(self.messages@, h)
        &&& self.next <= self.heights.len()
    }

    pub fn new(messages: Vec<IbcMessage>) -> (r: Self)
        ensures
            r.wf(),
            r.messages@ == messages@,
            r.next == 0,
            r.update_messages@.len() == 0,
    {
        let heights = source_heights(&messages);
        SendIbcMessagesWithUpdateClient { heights, next: 0, update_messages: Vec::new(), messages }
    }

    /// The next height whose update-client messages are still to be built.
    pub fn next_height(&self) -> (r: Option<Height>)
        requires
            self.wf(),
        ensures
            self.next < self.heights.len() ==> r == Some(self.heights@[self.next as int]),
            self.next == self.heights.len() ==> r.is_none(),
    {
        if self.next < self.heights.len() {
            Some(self.heights[self.next])
        } else {
            None
        }
    }

    /// Takes the update-client messages built for the height that
    /// `next_height` gave.
    pub fn add_update_messages(&mut self, built: Vec<IbcMessage>)
        requires
            old(self).wf(),
            old(self).next < old(self).heights.len(),
        ensures
            final(self).wf(),
            final(self).next == old(self).next + 1,
            final(self).heights@ == old(self).heights@,
            final(self).messages@ == old(self).messages@,
            final(self).update_messages@ == old(self).update_messages@ + built@,
    {
        let mut built = built;
        self.update_messages.append(&mut built);
        self.next = self.next + 1;
    }

    /// The batch to submit and the number of injected messages at its front.
    pub fn into_batch(self) -> (r: (Vec<IbcMessage>, usize))
        ensures
            r.0@ == self.update_messages@ + self.messages@,
            r.1 == self.update_messages@.len(),
    {
        let mut batch = self.update_messages;
        let count = batch.len();
        let mut messages = self.messages;
        batch.append(&mut messages);
        (batch, count)
    }

    /// Of the event lists that the chain returned for a combined batch of
    /// `update_count + message_count` messages, the trailing `message_count`
    /// ones, in order; an error where the chain returned another number.
    pub fn user_events<E>(events: Vec<Vec<E>>, update_count: usize, message_count: usize) -> (r:
        Result<Vec<Vec<E>>, EventCountMismatch>)
        ensures
            events@.len() == update_count + message_count ==> r is Ok && r->Ok_0@
                == events@.subrange(update_count as int, events@.len() as int),
            events@.len() != update_count + message_count ==> r == Err::<Vec<Vec<E>>, _>(
                (EventCountMismatch { update_count, message_count, received: events@.len() as usize }),
            ),
    {
        if update_count > events.len() || events.len() - update_count != message_count {
            return Err(
                EventCountMismatch {
                    update_count,
                    message_count,
                    received: events.len(),
                },
            );
        }
        let mut events = events;
        let tail = events.split_off(update_count);
        Ok(tail)
    }
}

/// Whatever number of update-client messages went in front of a batch of
/// caller messages, the chain's answer to the combined batch gives back one
/// event list per caller message, in the caller's order.
pub proof fn lemma_event_count_round_trip<E>(
    update_messages: Seq<IbcMessage>,
    messages: Seq<IbcMessage>,
    events: Seq<Vec<E>>,
)
    requires
        events.len() == (update_messages + messages).len(),
    ensures
        ({
            let returned = events.subrange(update_messages.len() as int, events.len() as int);
            &&& returned.len() == messages.len()
            &&& forall|i: int|
                0 <= i < messages.len() ==> returned[i] == events[update_messages.len() + i]
        }),
{
}

} // verus!
