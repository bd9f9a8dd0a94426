use vstd::prelude::*;

use crate::manager::{ManagerState, NO_DATA};

verus! {

/// However many topics are selected in a row, exactly the last selection is
/// live: generations strictly advance, at most one generation is accepted at a
/// time, and every generation handed out earlier is refused.
pub proof fn lemma_one_live_subscription(s: ManagerState, picks: Seq<(Seq<char>, Seq<char>)>)
    requires
        s.wf(),
    ensures
        s.after_selects(picks).wf(),
        s.after_selects(picks).generation == s.generation + picks.len(),
        picks.len() > 0 ==> s.after_selects(picks).active == Some(
            (s.generation + picks.len(), picks.last().0, picks.last().1),
        ),
        forall|g1: nat, g2: nat|
            s.after_selects(picks).accepts(g1) && s.after_selects(picks).accepts(g2) ==> g1 == g2,
        picks.len() > 0 ==> forall|g: nat|
            g < s.after_selects(picks).generation ==> !(#[trigger] s.after_selects(
                picks,
            ).accepts(g)),
    decreases picks.len(),
{
    if picks.len() > 0 {
        lemma_one_live_subscription(s, picks.drop_last());
    }
}

/// Once a selection has moved past generation `g`, a message tagged `g`,
/// rendered or not, changes nothing.
pub proof fn lemma_stale_message_discarded(
    s: ManagerState,
    topic: Seq<char>,
    msg_type: Seq<char>,
    g: nat,
    text: Option<Seq<char>>,
)
    requires
        s.wf(),
        g <= s.generation,
    ensures
        s.after_select(topic, msg_type).after_delivery(g, text) == s.after_select(topic, msg_type),
        s.after_select(topic, msg_type).after_delivery(g, text).display() == NO_DATA@,
{
}

/// Selecting A and then B leaves the cell at "no data yet", and messages of
/// A's generation cannot reach it afterwards.
pub proof fn lemma_switch_resets_cell(
    s: ManagerState,
    a_topic: Seq<char>,
    a_type: Seq<char>,
    b_topic: Seq<char>,
    b_type: Seq<char>,
    text: Option<Seq<char>>,
)
    requires
        s.wf(),
    ensures
        s.after_select(a_topic, a_type).after_select(b_topic, b_type).latest is None,
        s.after_select(a_topic, a_type).after_select(b_topic, b_type).display() == NO_DATA@,
        s.after_select(a_topic, a_type).after_select(b_topic, b_type).after_delivery(
            s.generation + 1,
            text,
        ) == s.after_select(a_topic, a_type).after_select(b_topic, b_type),
        s.after_select(a_topic, a_type).after_select(b_topic, b_type).active == Some(
            (s.generation + 2, b_topic, b_type),
        ),
{
}

/// A malformed message on the live subscription leaves the state as it was,
/// the subscription still live, and the next rendered message is displayed.
pub proof fn lemma_malformed_keeps_stream(s: ManagerState, g: nat, next: Seq<char>)
    requires
        s.wf(),
        s.accepts(g),
    ensures
        s.after_delivery(g, None) == s,
        s.after_delivery(g, None).accepts(g),
        s.after_delivery(g, None).after_delivery(g, Some(next)).display() == next,
        s.after_delivery(g, None).after_delivery(g, Some(next)).accepts(g),
{
}

} // verus!
