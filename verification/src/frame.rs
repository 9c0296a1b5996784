use vstd::prelude::*;
use crate::messages::{ThreadMessage, Viewport};

verus! {

/// What one non-blocking drain of the control queue decides, given the
/// messages in send order and the viewport in force before the drain:
/// whether the loop must exit (the first `Exit` terminates it, later
/// messages are discarded), and the viewport in force for the next draw
/// (the last `Resize` seen before that `Exit`, or the old viewport if
/// none arrived).
pub open spec fn drain_spec(msgs: Seq<ThreadMessage>, v: Viewport) -> (bool, Viewport)
    decreases msgs.len(),
{
    if msgs.len() == 0 {
        (false, v)
    } else {
        match msgs[0] {
            ThreadMessage::Exit => (true, v),
            ThreadMessage::Resize(w, h) => drain_spec(
                msgs.subrange(1, msgs.len() as int),
                Viewport { width: w, height: h },
            ),
        }
    }
}

/// The drain exits exactly when some message in the batch is `Exit`.
pub proof fn lemma_drain_exits_iff(msgs: Seq<ThreadMessage>, v: Viewport)
    ensures
        drain_spec(msgs, v).0 <==> exists|i: int| 0 <= i < msgs.len() && msgs[i] is Exit,
    decreases msgs.len(),
{
    if msgs.len() > 0 {
        match msgs[0] {
            ThreadMessage::Exit => {
                assert(msgs[0] is Exit);
            }
            ThreadMessage::Resize(w, h) => {
                let rest = msgs.subrange(1, msgs.len() as int);
                lemma_drain_exits_iff(rest, Viewport { width: w, height: h });
                if exists|i: int| 0 <= i < msgs.len() && msgs[i] is Exit {
                    let i = choose|i: int| 0 <= i < msgs.len() && msgs[i] is Exit;
                    assert(rest[i - 1] is Exit);
                }
                if exists|i: int| 0 <= i < rest.len() && rest[i] is Exit {
                    let i = choose|i: int| 0 <= i < rest.len() && rest[i] is Exit;
                    assert(msgs[i + 1] is Exit);
                }
            }
        }
    }
}

/// For every batch of positive resizes followed by `Exit`, the drain
/// exits and the viewport handed to the next draw is the most recently
/// sent one; with no resize in the batch the old viewport stands.
pub proof fn lemma_last_resize_wins(msgs: Seq<ThreadMessage>, v: Viewport)
    requires
        msgs.len() >= 1,
        forall|i: int| 0 <= i < msgs.len() - 1 ==> msgs[i] is Resize,
        msgs[msgs.len() - 1] is Exit,
    ensures
        drain_spec(msgs, v).0,
        msgs.len() >= 2 ==> drain_spec(msgs, v).1 == (Viewport {
            width: msgs[msgs.len() - 2]->Resize_0,
            height: msgs[msgs.len() - 2]->Resize_1,
        }),
        msgs.len() == 1 ==> drain_spec(msgs, v).1 == v,
    decreases msgs.len(),
{
    if msgs.len() == 1 {
        assert(msgs[0] is Exit);
    } else {
        assert(msgs[0] is Resize);
        let w = msgs[0]->Resize_0;
        let h = msgs[0]->Resize_1;
        let rest = msgs.subrange(1, msgs.len() as int);
        assert(forall|i: int| 0 <= i < rest.len() - 1 ==> rest[i] is Resize);
        assert(rest[rest.len() - 1] is Exit);
        lemma_last_resize_wins(rest, Viewport { width: w, height: h });
        if msgs.len() >= 3 {
            assert(rest[rest.len() - 2] == msgs[msgs.len() - 2]);
        }
    }
}

/// Once a batch holds an `Exit`, whatever is queued behind that batch is
/// discarded: it can change neither the decision to exit nor the final
/// viewport.
pub proof fn lemma_messages_after_exit_discarded(
    batch: Seq<ThreadMessage>,
    rest: Seq<ThreadMessage>,
    v: Viewport,
)
    requires
        exists|i: int| 0 <= i < batch.len() && batch[i] is Exit,
    ensures
        drain_spec(batch + rest, v) == drain_spec(batch, v),
    decreases batch.len(),
{
    let whole = batch + rest;
    assert(whole[0] == batch[0]);
    match batch[0] {
        ThreadMessage::Exit => {
        }
        ThreadMessage::Resize(w, h) => {
            let batch1 = batch.subrange(1, batch.len() as int);
            let i = choose|i: int| 0 <= i < batch.len() && batch[i] is Exit;
            assert(batch1[i - 1] is Exit);
            lemma_messages_after_exit_discarded(batch1, rest, Viewport { width: w, height: h });
            assert(whole.subrange(1, whole.len() as int) =~= batch1 + rest);
        }
    }
}

/// As long as only strictly positive resizes are forwarded — which
/// `resize_message` guarantees of the event thread — the viewport every
/// draw observes stays strictly positive.
pub proof fn lemma_viewport_stays_positive(msgs: Seq<ThreadMessage>, v: Viewport)
    requires
        v.is_positive(),
        forall|i: int|
            0 <= i < msgs.len() ==> (#[trigger] msgs[i] matches ThreadMessage::Resize(w, h)
                ==> w > 0 && h > 0),
    ensures
        drain_spec(msgs, v).1.is_positive(),
    decreases msgs.len(),
{
    if msgs.len() > 0 {
        match msgs[0] {
            ThreadMessage::Exit => {
            }
            ThreadMessage::Resize(w, h) => {
                let rest = msgs.subrange(1, msgs.len() as int);
                lemma_viewport_stays_positive(rest, Viewport { width: w, height: h });
            }
        }
    }
}

/// Drains one batch of control messages, in send order, without
/// blocking: reports whether an `Exit` was seen (terminating the drain)
/// and the viewport the next draw must use.
pub fn drain_messages(msgs: &Vec<ThreadMessage>, current: Viewport) -> (r: (bool, Viewport))
    ensures
        r == drain_spec(msgs@, current),
        r.0 <==> exists|i: int| 0 <= i < msgs@.len() && msgs@[i] is Exit,
{
    let mut v = current;
    let mut i: usize = 0;
    proof {
        assert(msgs@.subrange(0, msgs@.len() as int) =~= msgs@);
    }
    loop
        invariant
            i <= msgs@.len(),
            drain_spec(msgs@, current) == drain_spec(msgs@.subrange(i as int, msgs@.len() as int), v),
        decreases msgs@.len() - i,
    {
        if i == msgs.len() {
            proof {
                assert(msgs@.subrange(i as int, msgs@.len() as int).len() == 0);
                lemma_drain_exits_iff(msgs@, current);
            }
            return (false, v);
        }
        let ghost pending = msgs@.subrange(i as int, msgs@.len() as int);
        match msgs[i] {
            ThreadMessage::Exit => {
                proof {
                    assert(pending[0] is Exit);
                    lemma_drain_exits_iff(msgs@, current);
                }
                return (true, v);
            }
            ThreadMessage::Resize(w, h) => {
                proof {
                    assert(pending[0] == ThreadMessage::Resize(w, h));
                    assert(pending.subrange(1, pending.len() as int) =~= msgs@.subrange(
                        i + 1,
                        msgs@.len() as int,
                    ));
                }
                v = Viewport { width: w, height: h };
                i = i + 1;
            }
        }
    }
}

} // verus!
