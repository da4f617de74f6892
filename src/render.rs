use vstd::prelude::*;
use vstd::string::*;

use crate::labels::Labels;
use crate::message::{
    color_for, envelopes_view, fields_view, opt_view, Color, EnvelopeView, MessageView, OutboundEnvelope,
    OutboundMessage, RenderedField,
};
use crate::payload::{status_name, Alert, AlertGroup, AlertStatus, Annotations};

verus! {

/// What `str::to_uppercase` makes of a string.
pub uninterp spec fn upper_of(s: Seq<char>) -> Seq<char>;

/// Relies on str::to_uppercase: the upper-case form of a severity label.
#[verifier::external_body]
fn uppercase(s: &str) -> (r: String)
    ensures
        r@ == upper_of(s@),
{
    s.to_uppercase()
}

/// The decimal digits, in order.
pub open spec fn digits() -> Seq<char> {
    "0123456789"@
}

/// The decimal form of a count, without leading zeros.
pub open spec fn decimal(n: nat) -> Seq<char>
    decreases n,
{
    (if n < 10 {
        Seq::<char>::empty()
    } else {
        decimal(n / 10)
    }) + digits().subrange((n % 10) as int, (n % 10) as int + 1)
}

/// The decimal form of `n`.
pub fn decimal_string(n: usize) -> (r: String)
    ensures
        r@ == decimal(n as nat),
    decreases n,
{
    let ds = "0123456789";
    proof {
        reveal_strlit("0123456789");
    }
    let d = n % 10;
    let mut s = if n < 10 {
        String::new()
    } else {
        decimal_string(n / 10)
    };
    s.append(ds.substring_char(d, d + 1));
    s
}

/// What a label map gives for `key`, or `default` where it has no such key.
pub open spec fn label_or(m: Map<Seq<char>, Seq<char>>, key: Seq<char>, default: Seq<char>) -> Seq<char> {
    if m.contains_key(key) {
        m[key]
    } else {
        default
    }
}

/// The instance an alert is shown on: its `instance` label, or `unknown`,
/// replaced by `exported_instance` where the first is `unknown` or `localhost`.
pub open spec fn instance_of(m: Map<Seq<char>, Seq<char>>) -> Seq<char> {
    let i = label_or(m, "instance"@, "unknown"@);
    if (i == "unknown"@ || i == "localhost"@) && m.contains_key("exported_instance"@) {
        m["exported_instance"@]
    } else {
        i
    }
}

/// The name of an alert's field: `[<status>]: <alertname> on <instance>`.
pub open spec fn field_name_of(st: AlertStatus, m: Map<Seq<char>, Seq<char>>) -> Seq<char> {
    "["@ + status_name(st) + "]: "@ + label_or(m, "alertname"@, "unknown"@) + " on "@
        + instance_of(m)
}

/// The text an alert's annotations give: the description, else the summary, else `-`.
pub open spec fn summary_text_of(a: Option<Annotations>) -> Seq<char> {
    match a {
        Some(x) => match x.description {
            Some(d) => d@,
            None => x.summary@,
        },
        None => "-"@,
    }
}

/// The severity shown for an alert: its `severity` label in upper case, else `INFO`.
pub open spec fn severity_of(m: Map<Seq<char>, Seq<char>>) -> Seq<char> {
    if m.contains_key("severity"@) {
        upper_of(m["severity"@])
    } else {
        "INFO"@
    }
}

/// A field value: `<severity> <job> <summary>`, single-space separated.
pub open spec fn field_value_text(severity: Seq<char>, job: Seq<char>, summary: Seq<char>) -> Seq<char> {
    severity + " "@ + job + " "@ + summary
}

/// The field value of an alert.
pub open spec fn field_value_of(a: Alert) -> Seq<char> {
    field_value_text(
        severity_of(a.labels@),
        label_or(a.labels@, "job"@, "-"@),
        summary_text_of(a.annotations),
    )
}

/// The field an alert is shown as, within the partition of status `st`.
pub open spec fn field_of(st: AlertStatus, a: Alert) -> (Seq<char>, Seq<char>) {
    (field_name_of(st, a.labels@), field_value_of(a))
}

/// The fields of a sequence of alerts, one each, in order.
pub open spec fn fields_of(st: AlertStatus, s: Seq<Alert>) -> Seq<(Seq<char>, Seq<char>)> {
    s.map_values(|a: Alert| field_of(st, a))
}

/// The alerts of status `st`, in their order.
pub open spec fn with_status(s: Seq<Alert>, st: AlertStatus) -> Seq<Alert>
    decreases s.len(),
{
    if s.len() == 0 {
        Seq::empty()
    } else if s.last().status == st {
        with_status(s.drop_last(), st).push(s.last())
    } else {
        with_status(s.drop_last(), st)
    }
}

/// The title of a partition: `[<status>:<count>] <alert name>`.
pub open spec fn title_of(st: AlertStatus, count: nat, alert_name: Seq<char>) -> Seq<char> {
    "["@ + status_name(st) + ":"@ + decimal(count) + "] "@ + alert_name
}

/// The name a group goes by: its common `alertname` label, else `unnamed`.
pub open spec fn alert_name_of(g: AlertGroup) -> Seq<char> {
    label_or(g.common_labels@, "alertname"@, "unnamed"@)
}

/// The summary of a group: its common summary, else `no summary`.
pub open spec fn summary_of(g: AlertGroup) -> Seq<char> {
    match g.common_annotations {
        Some(a) => a.summary@,
        None => "no summary"@,
    }
}

/// The top-level text of each envelope: the common summary, where there is one.
pub open spec fn content_of(g: AlertGroup) -> Option<Seq<char>> {
    match g.common_annotations {
        Some(a) => Some(a.summary@),
        None => None,
    }
}

/// The message for the alerts of status `st` in a group.
pub open spec fn message_of(g: AlertGroup, st: AlertStatus) -> MessageView {
    let part = with_status(g.alerts@, st);
    MessageView {
        title: title_of(st, part.len(), alert_name_of(g)),
        description: summary_of(g),
        color: color_for(st),
        fields: fields_of(st, part),
    }
}

/// The envelope for the alerts of status `st` in a group.
pub open spec fn envelope_of(g: AlertGroup, st: AlertStatus) -> EnvelopeView {
    EnvelopeView { content: content_of(g), embeds: seq![message_of(g, st)] }
}

/// The envelopes for the partition of status `st`: one if it holds alerts, else none.
pub open spec fn envelopes_for(g: AlertGroup, st: AlertStatus) -> Seq<EnvelopeView> {
    if with_status(g.alerts@, st).len() > 0 {
        seq![envelope_of(g, st)]
    } else {
        Seq::empty()
    }
}

/// What a group renders to: the firing partition's envelope, then the resolved one's.
pub open spec fn render_of(g: AlertGroup) -> Seq<EnvelopeView> {
    envelopes_for(g, AlertStatus::Firing) + envelopes_for(g, AlertStatus::Resolved)
}

/// A label, or `default` where the map lacks it.
fn label_or_default(m: &Labels, key: &str, default: &str) -> (r: String)
    ensures
        r@ == label_or(m@, key@, default@),
{
    match m.get(key) {
        Some(v) => v.clone(),
        None => String::from_str(default),
    }
}

/// The instance an alert is shown on.
pub fn resolve_instance(labels: &Labels) -> (r: String)
    ensures
        r@ == instance_of(labels@),
{
    let instance = label_or_default(labels, "instance", "unknown");
    let fallback = instance == String::from_str("unknown")
        || instance == String::from_str("localhost");
    if fallback {
        match labels.get("exported_instance") {
            Some(e) => e.clone(),
            None => instance,
        }
    } else {
        instance
    }
}

/// The text an alert's annotations give.
pub fn summary_text(annotations: &Option<Annotations>) -> (r: String)
    ensures
        r@ == summary_text_of(*annotations),
{
    match annotations {
        Some(a) => match &a.description {
            Some(d) => d.clone(),
            None => a.summary.clone(),
        },
        None => String::from_str("-"),
    }
}

/// Joins severity, job and summary into a field value.
pub fn field_value(severity: &str, job: &str, summary: &str) -> (r: String)
    ensures
        r@ == field_value_text(severity@, job@, summary@),
{
    let mut v = String::from_str(severity);
    v.append(" ");
    v.append(job);
    v.append(" ");
    v.append(summary);
    v
}

/// The field an alert is shown as, within the partition of `status`.
pub fn render_field(status: AlertStatus, alert: &Alert) -> (r: RenderedField)
    ensures
        r@ == field_of(status, *alert),
{
    let instance = resolve_instance(&alert.labels);
    let alert_name = label_or_default(&alert.labels, "alertname", "unknown");
    let mut name = String::from_str("[");
    name.append(status.name());
    name.append("]: ");
    name.append(alert_name.as_str());
    name.append(" on ");
    name.append(instance.as_str());
    let severity = match alert.labels.get("severity") {
        Some(s) => uppercase(s.as_str()),
        None => String::from_str("INFO"),
    };
    let job = label_or_default(&alert.labels, "job", "-");
    let summary = summary_text(&alert.annotations);
    let value = field_value(severity.as_str(), job.as_str(), summary.as_str());
    RenderedField { name, value }
}

/// The title of a partition of `count` alerts.
pub fn title(status: AlertStatus, count: usize, alert_name: &str) -> (r: String)
    ensures
        r@ == title_of(status, count as nat, alert_name@),
{
    let mut t = String::from_str("[");
    t.append(status.name());
    t.append(":");
    let n = decimal_string(count);
    t.append(n.as_str());
    t.append("] ");
    t.append(alert_name);
    t
}

/// The fields of the alerts of `status`, in their order.
pub fn render_fields(status: AlertStatus, alerts: &Vec<Alert>) -> (r: Vec<RenderedField>)
    ensures
        fields_view(r@) == fields_of(status, with_status(alerts@, status)),
{
    let mut fields: Vec<RenderedField> = Vec::new();
    let mut i: usize = 0;
    while i < alerts.len()
        invariant
            i <= alerts@.len(),
            fields_view(fields@) == fields_of(status, with_status(alerts@.subrange(0, i as int), status)),
        decreases alerts@.len() - i,
    {
        let ghost before = fields@;
        proof {
            assert(alerts@.subrange(0, i as int + 1).drop_last() =~= alerts@.subrange(0, i as int));
        }
        if alerts[i].status == status {
            let f = render_field(status, &alerts[i]);
            fields.push(f);
            proof {
                assert(fields_view(fields@) =~= fields_view(before).push(f@));
                assert(fields_of(status, with_status(alerts@.subrange(0, i as int + 1), status))
                    =~= fields_of(status, with_status(alerts@.subrange(0, i as int), status)).push(
                    field_of(status, alerts@[i as int]),
                ));
            }
        }
        i = i + 1;
    }
    proof {
        assert(alerts@.subrange(0, alerts@.len() as int) =~= alerts@);
    }
    fields
}

/// The envelope for the alerts of `status` in a group.
fn render_envelope(
    group: &AlertGroup,
    status: AlertStatus,
    alert_name: &String,
) -> (r: OutboundEnvelope)
    requires
        alert_name@ == alert_name_of(*group),
    ensures
        r@ == envelope_of(*group, status),
{
    let fields = render_fields(status, &group.alerts);
    proof {
        assert(fields_view(fields@).len() == fields@.len());
        assert(fields_of(status, with_status(group.alerts@, status)).len() == with_status(
            group.alerts@,
            status,
        ).len());
    }
    let title = title(status, fields.len(), alert_name.as_str());
    let (description, content) = match &group.common_annotations {
        Some(a) => (a.summary.clone(), Some(a.summary.clone())),
        None => (String::from_str("no summary"), None),
    };
    let message = OutboundMessage {
        title,
        description,
        color: Color::for_status(status),
        fields,
    };
    let ghost m = message@;
    let embeds = vec![message];
    proof {
        assert(embeds@.map_values(|m: OutboundMessage| m@) =~= seq![m]);
        assert(m == message_of(*group, status));
        assert(opt_view(content) == content_of(*group));
    }
    OutboundEnvelope { content, embeds }
}

/// Renders a group: one envelope per status present, firing first, each
/// holding one message whose fields follow the alerts' order.
pub fn render(group: &AlertGroup) -> (r: Vec<OutboundEnvelope>)
    ensures
        envelopes_view(r@) == render_of(*group),
{
    let alert_name = label_or_default(&group.common_labels, "alertname", "unnamed");
    let mut out: Vec<OutboundEnvelope> = Vec::new();
    if has_status(&group.alerts, AlertStatus::Firing) {
        out.push(render_envelope(group, AlertStatus::Firing, &alert_name));
    }
    if has_status(&group.alerts, AlertStatus::Resolved) {
        out.push(render_envelope(group, AlertStatus::Resolved, &alert_name));
    }
    proof {
        assert(envelopes_view(out@) =~= render_of(*group));
    }
    out
}

/// Whether any alert has status `status`.
fn has_status(alerts: &Vec<Alert>, status: AlertStatus) -> (r: bool)
    ensures
        r == (with_status(alerts@, status).len() > 0),
{
    let mut i: usize = 0;
    while i < alerts.len()
        invariant
            i <= alerts@.len(),
            with_status(alerts@.subrange(0, i as int), status).len() == 0,
        decreases alerts@.len() - i,
    {
        proof {
            assert(alerts@.subrange(0, i as int + 1).drop_last() =~= alerts@.subrange(0, i as int));
        }
        if alerts[i].status == status {
            proof {
                lemma_with_status_grows(alerts@, i as int + 1, status);
            }
            return true;
        }
        i = i + 1;
    }
    proof {
        assert(alerts@.subrange(0, alerts@.len() as int) =~= alerts@);
    }
    false
}

/// A partition of a prefix that ends in a matching alert is not empty, nor is
/// the partition of the whole.
proof fn lemma_with_status_grows(s: Seq<Alert>, n: int, st: AlertStatus)
    requires
        0 < n <= s.len(),
        s[n - 1].status == st,
    ensures
        with_status(s, st).len() > 0,
    decreases s.len(),
{
    if n < s.len() {
        lemma_with_status_grows(s.drop_last(), n, st);
    }
}

} // verus!
