//! What a task has asked for and what it was told, whatever the replies are.
use vstd::prelude::*;

use crate::protocol::{ActionView, EventView, MoveView};
use crate::time::Instant;
use crate::world;

verus! {

/// What a task asked for, what it was told, and when.
pub struct Exchange {
    pub action: ActionView,
    pub event: EventView,
    pub now: Instant,
}

/// The exchanges of a task that gets some replies. Once it has ended there are no more.
pub open spec fn exchanges<S, R>(
    first: MoveView<S, R>,
    after: spec_fn(S, EventView, Instant) -> MoveView<S, R>,
    replies: Seq<(EventView, Instant)>,
) -> Seq<Exchange>
    decreases replies.len(),
{
    if replies.len() == 0 {
        Seq::empty()
    } else {
        let before = exchanges(first, after, replies.drop_last());
        match world::brought_to(first, after, replies.drop_last()) {
            MoveView::Next(_, action) => before.push(
                Exchange { action, event: replies.last().0, now: replies.last().1 },
            ),
            MoveView::End(_) => before,
        }
    }
}

/// Whether an action was asked for, and a reply came.
pub open spec fn has_asked(log: Seq<Exchange>, action: ActionView) -> bool {
    exists|i: int| 0 <= i < log.len() && (#[trigger] log[i]).action == action
}

/// Whether some reply came to an action.
pub open spec fn was_told(log: Seq<Exchange>, action: ActionView, event: EventView) -> bool {
    exists|i: int|
        0 <= i < log.len() && (#[trigger] log[i]).action == action && log[i].event == event
}

/// Whether an action was asked for, and no other reply came to it than this one.
pub open spec fn was_told_only(log: Seq<Exchange>, action: ActionView, event: EventView) -> bool {
    &&& was_told(log, action, event)
    &&& forall|i: int|
        0 <= i < log.len() && (#[trigger] log[i]).action == action ==> log[i].event == event
}

/// Whether a task asks for an action now.
pub open spec fn asks<S, R>(at: MoveView<S, R>, action: ActionView) -> bool {
    at matches MoveView::Next(_, asked) && asked == action
}

/// What was asked for stays asked for.
pub proof fn lemma_log_grows(log: Seq<Exchange>, last: Exchange, action: ActionView, event: EventView)
    ensures
        has_asked(log.push(last), action) <==> has_asked(log, action) || last.action == action,
        was_told(log.push(last), action, event) <==> was_told(log, action, event) || last.action
            == action && last.event == event,
        was_told_only(log, action, event) && last.action != action ==> was_told_only(
            log.push(last),
            action,
            event,
        ),
{
    let all = log.push(last);
    assert(all[log.len() as int] == last);
    if has_asked(log, action) {
        let i = choose|i: int| 0 <= i < log.len() && (#[trigger] log[i]).action == action;
        assert(all[i].action == action);
    }
    if was_told(log, action, event) {
        let i = choose|i: int|
            0 <= i < log.len() && (#[trigger] log[i]).action == action && log[i].event == event;
        assert(all[i].action == action && all[i].event == event);
    }
    if has_asked(all, action) && last.action != action {
        let i = choose|i: int| 0 <= i < all.len() && (#[trigger] all[i]).action == action;
        assert(log[i].action == action);
    }
    if was_told(all, action, event) && !(last.action == action && last.event == event) {
        let i = choose|i: int|
            0 <= i < all.len() && (#[trigger] all[i]).action == action && all[i].event == event;
        assert(log[i].action == action && log[i].event == event);
    }
    if was_told_only(log, action, event) && last.action != action {
        assert forall|i: int|
            0 <= i < all.len() && (#[trigger] all[i]).action == action implies all[i].event
            == event by {
            assert(log[i] == all[i]);
        }
    }
}

/// What was asked for and told stays so, all of it.
pub proof fn lemma_all_grows(log: Seq<Exchange>, last: Exchange)
    ensures
        log.push(last).last() == last,
        has_asked(log.push(last), last.action),
        was_told(log.push(last), last.action, last.event),
        !has_asked(log, last.action) ==> was_told_only(log.push(last), last.action, last.event),
        forall|action: ActionView|
            has_asked(log, action) ==> #[trigger] has_asked(log.push(last), action),
        forall|action: ActionView|
            !has_asked(log, action) && last.action != action ==> !#[trigger] has_asked(
                log.push(last),
                action,
            ),
        forall|action: ActionView, event: EventView|
            was_told(log, action, event) ==> #[trigger] was_told(log.push(last), action, event),
        forall|action: ActionView, event: EventView|
            was_told_only(log, action, event) && last.action != action
                ==> #[trigger] was_told_only(log.push(last), action, event),
{
    let all = log.push(last);
    assert forall|action: ActionView, event: EventView|
        was_told(log, action, event) implies #[trigger] was_told(all, action, event) by {
        lemma_log_grows(log, last, action, event);
    }
    assert forall|action: ActionView, event: EventView|
        was_told_only(log, action, event) && last.action != action implies #[trigger] was_told_only(
        all,
        action,
        event,
    ) by {
        lemma_log_grows(log, last, action, event);
    }
    assert forall|action: ActionView| has_asked(log, action) implies #[trigger] has_asked(
        all,
        action,
    ) by {
        lemma_log_grows(log, last, action, last.event);
    }
    assert forall|action: ActionView|
        !has_asked(log, action) && last.action != action implies !#[trigger] has_asked(
        all,
        action,
    ) by {
        lemma_log_grows(log, last, action, last.event);
    }
    lemma_log_grows(log, last, last.action, last.event);
    if !has_asked(log, last.action) {
        assert forall|i: int|
            0 <= i < all.len() && (#[trigger] all[i]).action == last.action implies all[i].event
            == last.event by {
            if i < log.len() {
                assert(log[i].action == last.action);
            }
        }
    }
}

/// Whether the first of some actions were all asked for.
pub open spec fn asked_all(
    log: Seq<Exchange>,
    actions: spec_fn(int) -> ActionView,
    n: int,
) -> bool {
    forall|k: int| 0 <= k < n ==> has_asked(log, #[trigger] actions(k))
}

pub proof fn lemma_asked_all(
    log: Seq<Exchange>,
    last: Exchange,
    actions: spec_fn(int) -> ActionView,
    n: int,
)
    ensures
        asked_all(log, actions, n) ==> asked_all(log.push(last), actions, n),
        asked_all(log, actions, n) && last.action == actions(n) ==> asked_all(
            log.push(last),
            actions,
            n + 1,
        ),
{
    if asked_all(log, actions, n) {
        assert forall|k: int|
            0 <= k < n || k == n && last.action == actions(n) implies has_asked(
            log.push(last),
            #[trigger] actions(k),
        ) by {
            lemma_log_grows(log, last, actions(k), last.event);
            if k < n {
                assert(has_asked(log, actions(k)));
            }
        }
    }
}

/// What holds at the beginning, and goes on to hold with every reply, holds at any time.
pub proof fn lemma_story<S, R>(
    first: MoveView<S, R>,
    after: spec_fn(S, EventView, Instant) -> MoveView<S, R>,
    holds: spec_fn(Seq<Exchange>, MoveView<S, R>) -> bool,
    replies: Seq<(EventView, Instant)>,
)
    requires
        holds(Seq::empty(), first),
        forall|log: Seq<Exchange>, state: S, action: ActionView, event: EventView, now: Instant|
            #![trigger holds(log, MoveView::Next(state, action)), after(state, event, now)]
            holds(log, MoveView::Next(state, action)) ==> holds(
                log.push(Exchange { action, event, now }),
                after(state, event, now),
            ),
    ensures
        holds(exchanges(first, after, replies), world::brought_to(first, after, replies)),
    decreases replies.len(),
{
    if replies.len() > 0 {
        let before = replies.drop_last();
        lemma_story(first, after, holds, before);
        if let MoveView::Next(state, action) = world::brought_to(first, after, before) {
            let log = exchanges(first, after, before);
            assert(holds(log, MoveView::Next(state, action)));
            let next = after(state, replies.last().0, replies.last().1);
            assert(holds(
                log.push(Exchange { action, event: replies.last().0, now: replies.last().1 }),
                next,
            ));
        }
    }
}

/// One more reply to a task that waits for one.
pub proof fn lemma_one_more<S, R>(
    first: MoveView<S, R>,
    after: spec_fn(S, EventView, Instant) -> MoveView<S, R>,
    replies: Seq<(EventView, Instant)>,
    reply: (EventView, Instant),
)
    ensures
        world::brought_to(first, after, replies.push(reply)) == match world::brought_to(
            first,
            after,
            replies,
        ) {
            MoveView::Next(state, _) => after(state, reply.0, reply.1),
            MoveView::End(result) => MoveView::End(result),
        },
{
    assert(replies.push(reply).drop_last() =~= replies);
}

/// As long as a task goes on there is one exchange for each reply.
proof fn lemma_one_for_each<S, R>(
    first: MoveView<S, R>,
    after: spec_fn(S, EventView, Instant) -> MoveView<S, R>,
    replies: Seq<(EventView, Instant)>,
)
    ensures
        exchanges(first, after, replies).len() <= replies.len(),
        world::brought_to(first, after, replies) is Next ==> exchanges(first, after, replies).len()
            == replies.len(),
    decreases replies.len(),
{
    if replies.len() > 0 {
        lemma_one_for_each(first, after, replies.drop_last());
    }
}

/// What a task asks for after some of the replies is what the next exchange is about.
pub proof fn lemma_next_exchange<S, R>(
    first: MoveView<S, R>,
    after: spec_fn(S, EventView, Instant) -> MoveView<S, R>,
    replies: Seq<(EventView, Instant)>,
    i: int,
)
    requires
        0 <= i < replies.len(),
        world::brought_to(first, after, replies.take(i)) is Next,
    ensures
        i < exchanges(first, after, replies).len(),
        asks(
            world::brought_to(first, after, replies.take(i)),
            exchanges(first, after, replies)[i].action,
        ),
        exchanges(first, after, replies)[i].event == replies[i].0,
        exchanges(first, after, replies)[i].now == replies[i].1,
    decreases replies.len(),
{
    let before = replies.drop_last();
    if i == replies.len() - 1 {
        assert(replies.take(i) =~= before);
        lemma_one_for_each(first, after, before);
    } else {
        assert(before.take(i) =~= replies.take(i));
        lemma_next_exchange(first, after, before, i);
        assert(before[i] == replies[i]);
    }
}

/// An exchange came about because the task asked for its action then.
pub proof fn lemma_exchange<S, R>(
    first: MoveView<S, R>,
    after: spec_fn(S, EventView, Instant) -> MoveView<S, R>,
    replies: Seq<(EventView, Instant)>,
    i: int,
)
    requires
        0 <= i < exchanges(first, after, replies).len(),
    ensures
        i < replies.len(),
        asks(
            world::brought_to(first, after, replies.take(i)),
            exchanges(first, after, replies)[i].action,
        ),
        exchanges(first, after, replies)[i].event == replies[i].0,
        replies.take(i).push(replies[i]) == replies.take(i + 1),
    decreases replies.len(),
{
    let before = replies.drop_last();
    lemma_one_for_each(first, after, replies);
    lemma_one_for_each(first, after, before);
    assert(replies.take(i).push(replies[i]) =~= replies.take(i + 1));
    if i < exchanges(first, after, before).len() {
        lemma_exchange(first, after, before, i);
        assert(before.take(i) =~= replies.take(i));
        assert(before[i] == replies[i]);
    } else {
        assert(replies.take(i) =~= before);
    }
}

/// In a task that has ended, whatever it went on to ask for was asked for.
pub proof fn lemma_asked_next<S, R>(
    first: MoveView<S, R>,
    after: spec_fn(S, EventView, Instant) -> MoveView<S, R>,
    replies: Seq<(EventView, Instant)>,
    i: int,
)
    requires
        0 <= i < replies.len(),
        world::brought_to(first, after, replies) is End,
        world::brought_to(first, after, replies.take(i + 1)) is Next,
    ensures
        i + 1 < exchanges(first, after, replies).len(),
        asks(
            world::brought_to(first, after, replies.take(i + 1)),
            exchanges(first, after, replies)[i + 1].action,
        ),
{
    assert(replies.take(replies.len() as int) =~= replies);
    lemma_next_exchange(first, after, replies, i + 1);
}

/// The exchanges up to a reply are the first ones of all.
pub proof fn lemma_prefix<S, R>(
    first: MoveView<S, R>,
    after: spec_fn(S, EventView, Instant) -> MoveView<S, R>,
    replies: Seq<(EventView, Instant)>,
    i: int,
)
    requires
        0 <= i < exchanges(first, after, replies).len(),
    ensures
        i < replies.len(),
        exchanges(first, after, replies.take(i)) == exchanges(first, after, replies).take(i),
        exchanges(first, after, replies.take(i)).len() == i,
    decreases replies.len(),
{
    let before = replies.drop_last();
    lemma_one_for_each(first, after, replies);
    lemma_one_for_each(first, after, before);
    if i < exchanges(first, after, before).len() {
        lemma_prefix(first, after, before, i);
        assert(before.take(i) =~= replies.take(i));
        assert(exchanges(first, after, before).take(i) =~= exchanges(first, after, replies).take(
            i,
        ));
    } else {
        assert(replies.take(i) =~= before);
        assert(exchanges(first, after, replies).take(i) =~= exchanges(first, after, before));
    }
}

} // verus!
