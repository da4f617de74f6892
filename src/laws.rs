use vstd::prelude::*;

use crate::message::{EnvelopeView, OutboundEnvelope, envelopes_view};
use crate::payload::{Alert, AlertGroup, AlertStatus};
use crate::render::{content_of, envelopes_for, message_of, field_of, fields_of, render_of, with_status};

verus! {

/// The number of fields over the first message of each envelope.
pub open spec fn field_count(v: Seq<EnvelopeView>) -> int
    decreases v.len(),
{
    if v.len() == 0 {
        0
    } else {
        field_count(v.drop_last()) + v.last().embeds[0].fields.len()
    }
}

/// Every alert of a partition has the partition's status.
proof fn lemma_with_status_only(s: Seq<Alert>, st: AlertStatus)
    ensures
        forall|k: int| 0 <= k < with_status(s, st).len() ==> #[trigger] with_status(s, st)[k].status == st,
    decreases s.len(),
{
    if s.len() > 0 {
        lemma_with_status_only(s.drop_last(), st);
    }
}

/// Every alert of a status lies in that status's partition.
proof fn lemma_with_status_has(s: Seq<Alert>, i: int)
    requires
        0 <= i < s.len(),
    ensures
        with_status(s, s[i].status).contains(s[i]),
    decreases s.len(),
{
    let st = s[i].status;
    if i == s.len() - 1 {
        assert(with_status(s, st).last() == s[i]);
    } else {
        lemma_with_status_has(s.drop_last(), i);
        let k = choose|k: int| 0 <= k < with_status(s.drop_last(), st).len() && with_status(s.drop_last(), st)[k] == s[i];
        if s.last().status == st {
            assert(with_status(s, st)[k] == s[i]);
        }
    }
}

/// The partitions by status cover the alerts: each alert lies in the
/// partition of its own status and in no other, and the partitions' sizes add
/// up to the number of alerts.
pub proof fn lemma_partition_covers(s: Seq<Alert>)
    ensures
        with_status(s, AlertStatus::Firing).len() + with_status(s, AlertStatus::Resolved).len() == s.len(),
        forall|i: int, st: AlertStatus| 0 <= i < s.len() ==>
            (#[trigger] with_status(s, st).contains(s[i]) <==> s[i].status == st),
    decreases s.len(),
{
    if s.len() > 0 {
        lemma_partition_covers(s.drop_last());
    }
    assert forall|i: int, st: AlertStatus| 0 <= i < s.len() implies
        (#[trigger] with_status(s, st).contains(s[i]) <==> s[i].status == st) by {
        if s[i].status == st {
            lemma_with_status_has(s, i);
        } else {
            lemma_with_status_only(s, st);
        }
    }
}

/// Partitioning keeps the order of the alerts: the partition of two runs of
/// alerts is the partition of the first followed by that of the second.
pub proof fn lemma_partition_keeps_order(s: Seq<Alert>, t: Seq<Alert>, st: AlertStatus)
    ensures
        with_status(s + t, st) == with_status(s, st) + with_status(t, st),
    decreases t.len(),
{
    if t.len() == 0 {
        assert(s + t =~= s);
        assert(with_status(s, st) + with_status(t, st) =~= with_status(s, st));
    } else {
        lemma_partition_keeps_order(s, t.drop_last(), st);
        assert((s + t).drop_last() =~= s + t.drop_last());
        assert(with_status(s + t, st) =~= with_status(s, st) + with_status(t, st));
    }
}

/// A single alert is kept in a partition exactly when its status matches.
pub proof fn lemma_partition_of_one(a: Alert, st: AlertStatus)
    ensures
        with_status(seq![a], st) == (if a.status == st {
            seq![a]
        } else {
            Seq::<Alert>::empty()
        }),
{
    assert(seq![a].drop_last() =~= Seq::<Alert>::empty());
    assert(seq![a].last() == a);
    assert(with_status(Seq::<Alert>::empty(), st) =~= Seq::<Alert>::empty());
    assert(with_status(seq![a], st) =~= (if a.status == st {
        seq![a]
    } else {
        Seq::<Alert>::empty()
    }));
}

/// The fields of a partition follow its alerts one for one, in order.
pub proof fn lemma_fields_follow_alerts(s: Seq<Alert>, st: AlertStatus)
    ensures
        fields_of(st, with_status(s, st)).len() == with_status(s, st).len(),
        forall|k: int| 0 <= k < with_status(s, st).len() ==>
            #[trigger] fields_of(st, with_status(s, st))[k] == field_of(st, with_status(s, st)[k]),
{
}

/// A group without alerts renders to no envelope.
pub proof fn lemma_no_alerts_no_envelopes(g: AlertGroup)
    requires
        g.alerts@.len() == 0,
    ensures
        render_of(g).len() == 0,
{
    assert(render_of(g) =~= Seq::<EnvelopeView>::empty());
}

/// Each envelope of a group carries one message, and the fields over all
/// envelopes are as many as the group's alerts.
pub proof fn lemma_render_covers(g: AlertGroup)
    ensures
        forall|j: int| 0 <= j < render_of(g).len() ==> (#[trigger] render_of(g)[j]).embeds.len() == 1,
        field_count(render_of(g)) == g.alerts@.len(),
{
    lemma_partition_covers(g.alerts@);
    let f = envelopes_for(g, AlertStatus::Firing);
    let r = envelopes_for(g, AlertStatus::Resolved);
    let v = render_of(g);
    lemma_fields_follow_alerts(g.alerts@, AlertStatus::Firing);
    lemma_fields_follow_alerts(g.alerts@, AlertStatus::Resolved);
    assert(field_count(f) == with_status(g.alerts@, AlertStatus::Firing).len()) by {
        if f.len() > 0 {
            assert(f.drop_last() =~= Seq::<EnvelopeView>::empty());
            assert(field_count(Seq::<EnvelopeView>::empty()) == 0);
            assert(f.last().embeds[0] == message_of(g, AlertStatus::Firing));
        }
    }
    if r.len() > 0 {
        assert(v.drop_last() =~= f);
    } else {
        assert(v =~= f);
    }
}

/// Each envelope's top-level text is present exactly when the group has
/// common annotations, and is then their summary.
pub proof fn lemma_content_follows_common_annotations(g: AlertGroup)
    ensures
        forall|j: int| 0 <= j < render_of(g).len() ==> (#[trigger] render_of(g)[j]).content == content_of(g),
        content_of(g) is Some <==> g.common_annotations is Some,
        g.common_annotations is Some ==> content_of(g) == Some(g.common_annotations->Some_0.summary@),
{
}

/// Rendering has no hidden state: two renderings of one group hold the same.
pub proof fn lemma_render_deterministic(
    g: AlertGroup,
    r1: Seq<OutboundEnvelope>,
    r2: Seq<OutboundEnvelope>,
)
    requires
        envelopes_view(r1) == render_of(g),
        envelopes_view(r2) == render_of(g),
    ensures
        envelopes_view(r1) == envelopes_view(r2),
{
}

} // verus!
