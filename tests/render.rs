use alert_relay::labels::Labels;
use alert_relay::message::{Color, OutboundEnvelope};
use alert_relay::payload::{Alert, AlertGroup, AlertStatus, Annotations, ValidationError};
use alert_relay::render::{
    decimal_string, field_value, render, render_field, resolve_instance, summary_text, title,
};

fn labels(pairs: &[(&str, &str)]) -> Labels {
    let mut m = Labels::new();
    for (k, v) in pairs {
        m.insert(k.to_string(), v.to_string());
    }
    m
}

fn alert(status: AlertStatus, pairs: &[(&str, &str)], annotations: Option<Annotations>) -> Alert {
    Alert {
        status,
        labels: labels(pairs),
        annotations,
        fingerprint: String::from("fp"),
    }
}

fn annotations(summary: &str, description: Option<&str>) -> Annotations {
    Annotations {
        summary: summary.to_string(),
        description: description.map(|d| d.to_string()),
    }
}

fn group(alerts: Vec<Alert>, common: &[(&str, &str)], common_annotations: Option<Annotations>) -> AlertGroup {
    AlertGroup {
        version: String::from("4"),
        status: AlertStatus::Firing,
        alerts,
        group_labels: Labels::new(),
        common_labels: labels(common),
        common_annotations,
        truncated_alerts: 0,
    }
}

fn field_names(e: &OutboundEnvelope) -> Vec<String> {
    e.embeds[0].fields.iter().map(|f| f.name.clone()).collect()
}

#[test]
fn empty_group_renders_nothing() {
    let g = group(Vec::new(), &[("alertname", "X")], Some(annotations("s", None)));
    assert!(render(&g).is_empty());
}

#[test]
fn partitions_cover_every_alert_once() {
    let g = group(
        vec![
            alert(AlertStatus::Firing, &[("alertname", "a1")], None),
            alert(AlertStatus::Resolved, &[("alertname", "a2")], None),
            alert(AlertStatus::Firing, &[("alertname", "a3")], None),
            alert(AlertStatus::Resolved, &[("alertname", "a4")], None),
            alert(AlertStatus::Firing, &[("alertname", "a5")], None),
        ],
        &[],
        None,
    );
    let out = render(&g);
    assert_eq!(out.len(), 2);
    assert_eq!(out.iter().map(|e| e.embeds.len()).sum::<usize>(), 2);
    let total: usize = out.iter().map(|e| e.embeds[0].fields.len()).sum();
    assert_eq!(total, 5);
    assert_eq!(out[0].embeds[0].color, Color::Red);
    assert_eq!(out[1].embeds[0].color, Color::Green);
}

#[test]
fn fields_keep_input_order_within_partition() {
    let g = group(
        vec![
            alert(AlertStatus::Firing, &[("alertname", "a1"), ("instance", "h1")], None),
            alert(AlertStatus::Resolved, &[("alertname", "a2"), ("instance", "h2")], None),
            alert(AlertStatus::Firing, &[("alertname", "a3"), ("instance", "h3")], None),
            alert(AlertStatus::Firing, &[("alertname", "a4"), ("instance", "h4")], None),
        ],
        &[],
        None,
    );
    let out = render(&g);
    assert_eq!(
        field_names(&out[0]),
        vec!["[Firing]: a1 on h1", "[Firing]: a3 on h3", "[Firing]: a4 on h4"]
    );
    assert_eq!(field_names(&out[1]), vec!["[Resolved]: a2 on h2"]);
}

#[test]
fn resolved_title_counts_and_names() {
    let g = group(
        vec![
            alert(AlertStatus::Resolved, &[], None),
            alert(AlertStatus::Resolved, &[], None),
            alert(AlertStatus::Resolved, &[], None),
        ],
        &[("alertname", "DiskFull")],
        None,
    );
    let out = render(&g);
    assert_eq!(out.len(), 1);
    assert_eq!(out[0].embeds[0].title, "[Resolved:3] DiskFull");
    assert_eq!(out[0].embeds[0].description, "no summary");
}

#[test]
fn title_without_alertname_is_unnamed() {
    let g = group(vec![alert(AlertStatus::Firing, &[], None)], &[], None);
    let out = render(&g);
    assert_eq!(out[0].embeds[0].title, "[Firing:1] unnamed");
}

#[test]
fn title_formats_large_counts() {
    assert_eq!(title(AlertStatus::Firing, 12, "Load"), "[Firing:12] Load");
    assert_eq!(title(AlertStatus::Resolved, 0, ""), "[Resolved:0] ");
}

#[test]
fn decimal_forms() {
    assert_eq!(decimal_string(0), "0");
    assert_eq!(decimal_string(7), "7");
    assert_eq!(decimal_string(10), "10");
    assert_eq!(decimal_string(12345), "12345");
    assert_eq!(decimal_string(usize::MAX), usize::MAX.to_string());
}

#[test]
fn color_follows_status() {
    assert_eq!(Color::for_status(AlertStatus::Firing), Color::Red);
    assert_eq!(Color::for_status(AlertStatus::Resolved), Color::Green);
    assert_eq!(Color::Red.value(), 0x992D22);
    assert_eq!(Color::Green.value(), 0x2ECC71);
    assert_eq!(Color::Grey.value(), 0x95A5A6);
}

#[test]
fn instance_localhost_takes_exported_instance() {
    let m = labels(&[("instance", "localhost"), ("exported_instance", "db-1")]);
    assert_eq!(resolve_instance(&m), "db-1");
    let f = render_field(AlertStatus::Firing, &alert(AlertStatus::Firing, &[("instance", "localhost"), ("exported_instance", "db-1")], None));
    assert!(f.name.contains("db-1"));
}

#[test]
fn instance_plain_label_is_kept() {
    let m = labels(&[("instance", "host-7")]);
    assert_eq!(resolve_instance(&m), "host-7");
    let f = render_field(AlertStatus::Firing, &alert(AlertStatus::Firing, &[("instance", "host-7")], None));
    assert!(f.name.contains("host-7"));
}

#[test]
fn instance_missing_takes_exported_or_unknown() {
    assert_eq!(resolve_instance(&labels(&[("exported_instance", "e")])), "e");
    assert_eq!(resolve_instance(&labels(&[])), "unknown");
    assert_eq!(resolve_instance(&labels(&[("instance", "h"), ("exported_instance", "e")])), "h");
}

#[test]
fn field_name_format() {
    let f = render_field(AlertStatus::Resolved, &alert(AlertStatus::Resolved, &[("alertname", "CPU"), ("instance", "n1")], None));
    assert_eq!(f.name, "[Resolved]: CPU on n1");
    let g = render_field(AlertStatus::Firing, &alert(AlertStatus::Firing, &[], None));
    assert_eq!(g.name, "[Firing]: unknown on unknown");
}

#[test]
fn summary_without_description_is_summary() {
    let a = alert(AlertStatus::Firing, &[], Some(annotations("S", None)));
    let f = render_field(AlertStatus::Firing, &a);
    assert!(f.value.ends_with("S"));
    assert_eq!(summary_text(&a.annotations), "S");
}

#[test]
fn summary_with_description_is_description() {
    let a = alert(AlertStatus::Firing, &[], Some(annotations("S", Some("D"))));
    let f = render_field(AlertStatus::Firing, &a);
    assert!(f.value.ends_with("D"));
}

#[test]
fn summary_without_annotations_is_dash() {
    let a = alert(AlertStatus::Firing, &[], None);
    let f = render_field(AlertStatus::Firing, &a);
    assert!(f.value.ends_with("-"));
    assert_eq!(f.value, "INFO - -");
}

#[test]
fn severity_is_upper_cased() {
    let a = alert(AlertStatus::Firing, &[("severity", "critical"), ("job", "node")], Some(annotations("S", None)));
    let f = render_field(AlertStatus::Firing, &a);
    assert_eq!(f.value, "CRITICAL node S");
}

#[test]
fn field_value_joins_with_spaces() {
    assert_eq!(field_value("WARN", "api", "slow"), "WARN api slow");
    assert_eq!(field_value("", "", ""), "  ");
}

#[test]
fn content_present_with_common_annotations() {
    let g = group(vec![alert(AlertStatus::Firing, &[], None)], &[], Some(annotations("Disk almost full", None)));
    let out = render(&g);
    assert_eq!(out[0].content.as_deref(), Some("Disk almost full"));
    assert_eq!(out[0].embeds[0].description, "Disk almost full");
}

#[test]
fn content_absent_without_common_annotations() {
    let g = group(
        vec![alert(AlertStatus::Firing, &[], None), alert(AlertStatus::Resolved, &[], None)],
        &[],
        None,
    );
    let out = render(&g);
    assert_eq!(out.len(), 2);
    assert!(out.iter().all(|e| e.content.is_none()));
}

#[test]
fn rendering_twice_gives_the_same() {
    let g = group(
        vec![
            alert(AlertStatus::Resolved, &[("alertname", "a"), ("severity", "warning")], Some(annotations("x", Some("y")))),
            alert(AlertStatus::Firing, &[("instance", "localhost"), ("exported_instance", "z")], None),
        ],
        &[("alertname", "Grp")],
        Some(annotations("sum", None)),
    );
    let a = render(&g);
    let b = render(&g);
    assert_eq!(a.len(), b.len());
    for (x, y) in a.iter().zip(b.iter()) {
        assert_eq!(x.content, y.content);
        assert_eq!(x.embeds.len(), y.embeds.len());
        let (m, n) = (&x.embeds[0], &y.embeds[0]);
        assert_eq!(m.title, n.title);
        assert_eq!(m.description, n.description);
        assert_eq!(m.color, n.color);
        let fm: Vec<(String, String)> = m.fields.iter().map(|f| (f.name.clone(), f.value.clone())).collect();
        let fo: Vec<(String, String)> = n.fields.iter().map(|f| (f.name.clone(), f.value.clone())).collect();
        assert_eq!(fm, fo);
    }
}

#[test]
fn status_tokens_parse() {
    assert_eq!(AlertStatus::parse("firing"), Ok(AlertStatus::Firing));
    assert_eq!(AlertStatus::parse("resolved"), Ok(AlertStatus::Resolved));
    assert_eq!(AlertStatus::parse("unknown"), Err(ValidationError::UnknownStatus));
    assert_eq!(AlertStatus::parse("Firing"), Err(ValidationError::UnknownStatus));
    assert_eq!(AlertStatus::parse(""), Err(ValidationError::UnknownStatus));
}

#[test]
fn status_names() {
    assert_eq!(AlertStatus::Firing.name(), "Firing");
    assert_eq!(AlertStatus::Resolved.name(), "Resolved");
}

#[test]
fn labels_insert_replaces() {
    let mut m = Labels::new();
    assert_eq!(m.get("k"), None);
    m.insert(String::from("k"), String::from("1"));
    m.insert(String::from("j"), String::from("2"));
    m.insert(String::from("k"), String::from("3"));
    assert_eq!(m.get("k").map(|s| s.as_str()), Some("3"));
    assert_eq!(m.get("j").map(|s| s.as_str()), Some("2"));
    assert_eq!(m.get("x"), None);
}
