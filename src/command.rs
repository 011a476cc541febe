//! Command event builders: identity, hierarchy and tracking.
use vstd::prelude::*;

use crate::event::{
    code_path_name, config_action_name, opt_view, CodePath, Event, EventType,
    TelemetryCommandEvent, WireEventView,
};
use crate::ids::{is_v4_uuid, new_v4_id};

verus! {

/// The content of a [`CommandEventBuilder`].
pub struct BuilderView {
    pub id: Seq<char>,
    pub command: Seq<char>,
    pub parent: Option<Seq<char>>,
}

impl BuilderView {
    /// The wire event that this builder forwards for `key` and the (already
    /// redacted) `value`.
    pub open spec fn wire_event(self, key: Seq<char>, value: Seq<char>) -> WireEventView {
        WireEventView {
            id: self.id,
            command: self.command,
            parent: self.parent,
            key,
            value,
        }
    }

    /// `after` is `before` with exactly one more wire event at its end, the one
    /// this builder stamps for `key` and `value`.
    pub open spec fn forwarded(
        self,
        before: Seq<TelemetryCommandEvent>,
        after: Seq<TelemetryCommandEvent>,
        key: Seq<char>,
        value: Seq<char>,
    ) -> bool {
        &&& after == before.push(after.last())
        &&& after.last()@ == self.wire_event(key, value)
    }
}

/// `value` is what `event` may be published as: the hash's output on the raw
/// value when the event is sensitive, the raw value itself otherwise.
pub open spec fn redacts<H: Fn(&String) -> String>(hash: H, event: Event, value: String) -> bool {
    match event.is_sensitive {
        EventType::Sensitive => hash.ensures((&event.value,), value),
        EventType::NonSensitive => value@ == event.value@,
    }
}

/// Tracking `event` on the builder `b` with `hash` took the outbox from
/// `before` to `after`: one wire event was appended, stamped with the
/// builder's identity and carrying the event's key and redacted value.
pub open spec fn records_event<H: Fn(&String) -> String>(
    b: BuilderView,
    hash: H,
    event: Event,
    before: Seq<TelemetryCommandEvent>,
    after: Seq<TelemetryCommandEvent>,
) -> bool {
    &&& b.forwarded(before, after, event.key@, after.last().value@)
    &&& redacts(hash, event, after.last().value)
}

/// Two events tracked one after the other on the same builder are both
/// forwarded, in that order, after what the outbox already held, and both carry
/// that builder's id, command and parent.
pub proof fn lemma_chained_events_share_identity(
    b: BuilderView,
    o0: Seq<TelemetryCommandEvent>,
    o1: Seq<TelemetryCommandEvent>,
    o2: Seq<TelemetryCommandEvent>,
    k1: Seq<char>,
    v1: Seq<char>,
    k2: Seq<char>,
    v2: Seq<char>,
)
    requires
        b.forwarded(o0, o1, k1, v1),
        b.forwarded(o1, o2, k2, v2),
    ensures
        o2.len() == o0.len() + 2,
        o2.subrange(0, o0.len() as int) == o0,
        o2[o0.len() as int]@ == b.wire_event(k1, v1),
        o2[o0.len() + 1int]@ == b.wire_event(k2, v2),
        o2[o0.len() as int]@.id == b.id && o2[o0.len() + 1int]@.id == b.id,
        o2[o0.len() as int]@.command == b.command && o2[o0.len() + 1int]@.command == b.command,
        o2[o0.len() as int]@.parent == b.parent && o2[o0.len() + 1int]@.parent == b.parent,
{
    assert(o2.subrange(0, o0.len() as int) =~= o0);
}

/// When the hash gives equal text for equal text, the same sensitive value is
/// redacted to the same text every time it is tracked, whichever builder and
/// key track it.
pub proof fn lemma_sensitive_redaction_repeats<H: Fn(&String) -> String>(
    hash: H,
    b1: BuilderView,
    e1: Event,
    o0: Seq<TelemetryCommandEvent>,
    o1: Seq<TelemetryCommandEvent>,
    b2: BuilderView,
    e2: Event,
    p0: Seq<TelemetryCommandEvent>,
    p1: Seq<TelemetryCommandEvent>,
)
    requires
        forall|x: String, y: String, hx: String, hy: String|
            x@ == y@ && #[trigger] hash.ensures((&x,), hx) && #[trigger] hash.ensures((&y,), hy)
                ==> hx@ == hy@,
        e1.is_sensitive == EventType::Sensitive,
        e2.is_sensitive == EventType::Sensitive,
        e1.value@ == e2.value@,
        records_event(b1, hash, e1, o0, o1),
        records_event(b2, hash, e2, p0, p1),
    ensures
        o1.last().value@ == p1.last().value@,
        o1.last()@ == b1.wire_event(e1.key@, p1.last().value@),
        p1.last()@ == b2.wire_event(e2.key@, o1.last().value@),
{
}

/// One tracked command invocation: a random id, the command's name, and the id
/// of the builder it was derived from, if any.
#[derive(Debug)]
pub struct CommandEventBuilder {
    id: String,
    command: String,
    parent: Option<String>,
}

impl View for CommandEventBuilder {
    type V = BuilderView;

    closed spec fn view(&self) -> BuilderView {
        BuilderView { id: self.id@, command: self.command@, parent: opt_view(self.parent) }
    }
}

impl Clone for CommandEventBuilder {
    fn clone(&self) -> (r: Self)
        ensures
            r@ == self@,
    {
        proof {
            use_type_invariant(self);
        }
        let parent = match &self.parent {
            Some(p) => Some(p.clone()),
            None => None,
        };
        CommandEventBuilder { id: self.id.clone(), command: self.command.clone(), parent }
    }
}

impl CommandEventBuilder {
    /// The id and the parent id, when there is one, are random UUIDs: a parent
    /// is always the id of another builder, never an arbitrary string.
    #[verifier::type_invariant]
    closed spec fn ids_are_uuids(&self) -> bool {
        &&& is_v4_uuid(self.id@)
        &&& (self.parent matches Some(p) ==> is_v4_uuid(p@))
    }

    /// A root builder for `command`, under a fresh random id.
    pub fn new(command: &str) -> (r: Self)
        ensures
            r@.command == command@,
            r@.parent is None,
            is_v4_uuid(r@.id),
    {
        CommandEventBuilder { id: new_v4_id(), command: command.to_string(), parent: None }
    }

    /// This builder's id.
    pub fn get_id(&self) -> (r: &String)
        ensures
            r@ == self@.id,
            is_v4_uuid(r@),
    {
        proof {
            use_type_invariant(self);
        }
        &self.id
    }

    /// This builder, now recorded as derived from `parent_event`.
    pub fn with_parent(self, parent_event: &CommandEventBuilder) -> (r: Self)
        ensures
            is_v4_uuid(r@.id),
            r@.id == self@.id,
            r@.command == self@.command,
            r@.parent == Some(parent_event@.id),
    {
        proof {
            use_type_invariant(&self);
            use_type_invariant(parent_event);
        }
        let mut b = self;
        b.parent = Some(parent_event.get_id().clone());
        b
    }

    /// A builder for a sub-operation of this one: same command, fresh id, and
    /// this builder's id as its parent.
    pub fn child(&self) -> (r: Self)
        ensures
            r@.command == self@.command,
            r@.parent == Some(self@.id),
            is_v4_uuid(r@.id),
    {
        Self::new(self.command.as_str()).with_parent(self)
    }

    /// Appends to `out` the wire event that this builder stamps for `key` and
    /// the already redacted `value`.
    fn forward(&self, key: String, value: String, out: &mut Vec<TelemetryCommandEvent>)
        ensures
            self@.forwarded(old(out)@, final(out)@, key@, value@),
            final(out)@.last().value == value,
    {
        let parent = match &self.parent {
            Some(p) => Some(p.clone()),
            None => None,
        };
        out.push(
            TelemetryCommandEvent {
                id: self.id.clone(),
                command: self.command.clone(),
                parent,
                key,
                value,
            },
        );
    }

    /// Tracks `event`: a sensitive value is replaced by `hash` of it, a
    /// non-sensitive one is kept, and exactly one wire event, stamped with this
    /// builder's id, command and parent, is appended to the outbox `out`.
    pub fn track<H: Fn(&String) -> String>(
        &self,
        event: Event,
        hash: H,
        out: &mut Vec<TelemetryCommandEvent>,
    )
        requires
            event.is_sensitive == EventType::Sensitive ==> hash.requires((&event.value,)),
        ensures
            records_event(self@, hash, event, old(out)@, final(out)@),
            event.is_sensitive == EventType::NonSensitive ==> final(out)@.last()@
                == self@.wire_event(event.key@, event.value@),
    {
        let value = match event.is_sensitive {
            EventType::Sensitive => hash(&event.value),
            EventType::NonSensitive => event.value,
        };
        self.forward(event.key, value, out);
    }

    /// Records that this command was called.
    pub fn track_call(&self, out: &mut Vec<TelemetryCommandEvent>) -> (r: &Self)
        ensures
            r == self,
            self@.forwarded(old(out)@, final(out)@, "command"@, "called"@),
    {
        self.forward("command".to_string(), "called".to_string(), out);
        self
    }

    /// Records which implementation ran this command.
    pub fn track_run_code_path(&self, path: CodePath, out: &mut Vec<TelemetryCommandEvent>) -> (r:
        &Self)
        ensures
            r == self,
            self@.forwarded(old(out)@, final(out)@, "binary"@, code_path_name(path)),
    {
        let value = match path {
            CodePath::Go => "go".to_string(),
            CodePath::Rust => "rust".to_string(),
        };
        self.forward("binary".to_string(), value, out);
        self
    }

    /// Records that telemetry was switched on or off.
    pub fn track_telemetry_config(&self, enabled: bool, out: &mut Vec<TelemetryCommandEvent>) -> (r:
        &Self)
        ensures
            r == self,
            self@.forwarded(old(out)@, final(out)@, "action"@, config_action_name(enabled)),
    {
        let value = if enabled {
            "enabled".to_string()
        } else {
            "disabled".to_string()
        };
        self.forward("action".to_string(), value, out);
        self
    }

    /// Records a generator option, verbatim.
    pub fn track_generator_option(&self, option: &str, out: &mut Vec<TelemetryCommandEvent>) -> (r:
        &Self)
        ensures
            r == self,
            self@.forwarded(old(out)@, final(out)@, "option"@, option@),
    {
        self.forward("option".to_string(), option.to_string(), out);
        self
    }

    /// Records a generator tag, verbatim.
    pub fn track_generator_tag(&self, tag: &str, out: &mut Vec<TelemetryCommandEvent>) -> (r:
        &Self)
        ensures
            r == self,
            self@.forwarded(old(out)@, final(out)@, "tag"@, tag@),
    {
        self.forward("tag".to_string(), tag.to_string(), out);
        self
    }
}

} // verus!
