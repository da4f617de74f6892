use vstd::prelude::*;

use crate::payload::AlertStatus;

verus! {

/// The palette of embed colors.
#[derive(Clone, Copy, Debug, PartialEq, Eq, Structural)]
pub enum Color {
    Red,
    Green,
    Grey,
}

/// The numeric value of a palette color on the wire.
pub open spec fn color_value(c: Color) -> u32 {
    match c {
        Color::Red => 0x992D22,
        Color::Green => 0x2ECC71,
        Color::Grey => 0x95A5A6,
    }
}

/// The color that marks a status: red while firing, green once resolved.
pub open spec fn color_for(s: AlertStatus) -> Color {
    match s {
        AlertStatus::Firing => Color::Red,
        AlertStatus::Resolved => Color::Green,
    }
}

impl Color {
    /// The color that marks `status`.
    pub fn for_status(status: AlertStatus) -> (r: Color)
        ensures
            r == color_for(status),
    {
        match status {
            AlertStatus::Firing => Color::Red,
            AlertStatus::Resolved => Color::Green,
        }
    }

    /// The numeric value sent on the wire.
    pub fn value(&self) -> (r: u32)
        ensures
            r == color_value(*self),
    {
        match self {
            Color::Red => 0x992D22,
            Color::Green => 0x2ECC71,
            Color::Grey => 0x95A5A6,
        }
    }
}

/// One name/value pair shown for one alert.
pub struct RenderedField {
    pub name: String,
    pub value: String,
}

impl View for RenderedField {
    type V = (Seq<char>, Seq<char>);

    open spec fn view(&self) -> (Seq<char>, Seq<char>) {
        (self.name@, self.value@)
    }
}

/// The contents of a field list.
pub open spec fn fields_view(s: Seq<RenderedField>) -> Seq<(Seq<char>, Seq<char>)> {
    s.map_values(|f: RenderedField| f@)
}

/// What an outbound message holds.
pub struct MessageView {
    pub title: Seq<char>,
    pub description: Seq<char>,
    pub color: Color,
    pub fields: Seq<(Seq<char>, Seq<char>)>,
}

/// One rich message: title, description, color and the fields in order.
pub struct OutboundMessage {
    pub title: String,
    pub description: String,
    pub color: Color,
    pub fields: Vec<RenderedField>,
}

impl View for OutboundMessage {
    type V = MessageView;

    open spec fn view(&self) -> MessageView {
        MessageView {
            title: self.title@,
            description: self.description@,
            color: self.color,
            fields: fields_view(self.fields@),
        }
    }
}

/// What an envelope holds.
pub struct EnvelopeView {
    pub content: Option<Seq<char>>,
    pub embeds: Seq<MessageView>,
}

/// One delivery: optional top-level text and the embedded messages.
pub struct OutboundEnvelope {
    pub content: Option<String>,
    pub embeds: Vec<OutboundMessage>,
}

/// The text of an optional string.
pub open spec fn opt_view(o: Option<String>) -> Option<Seq<char>> {
    match o {
        Some(s) => Some(s@),
        None => None,
    }
}

impl View for OutboundEnvelope {
    type V = EnvelopeView;

    open spec fn view(&self) -> EnvelopeView {
        EnvelopeView {
            content: opt_view(self.content),
            embeds: self.embeds@.map_values(|m: OutboundMessage| m@),
        }
    }
}

/// The contents of a sequence of envelopes.
pub open spec fn envelopes_view(s: Seq<OutboundEnvelope>) -> Seq<EnvelopeView> {
    s.map_values(|e: OutboundEnvelope| e@)
}

} // verus!
