//! The record that a watch stream carries: one cluster event and the kind of
//! change that happened to it.
//!
//! Every type here has a view that holds its strings as sequences of
//! characters. For each one a spec function (`event_of`, `object_of`, ...)
//! says which documents it can be read from and what is read; the `decode`
//! functions compute exactly that. Members that the schema does not name are
//! ignored. A member that may be missing reads as `None` both when it is
//! missing and when it is `null`.

use crate::json::{
    as_count, as_text, count, has_member, is_null, json_of, json_text, member, member_of, null,
    object, put, render, text, JsonView,
};
use serde_json::Value;
use vstd::prelude::*;

verus! {

/// One change notification of the watch stream.
#[derive(Clone, Debug, PartialEq, Eq)]
pub struct Event {
    /// The cluster event that changed.
    pub object: Object,
    /// What happened to it: `ADDED`, `MODIFIED`, `DELETED` or `ERROR`.
    pub event_type: String,
}

/// A description of the event.
#[derive(Clone, Debug, PartialEq, Eq)]
pub struct Object {
    /// The versioned schema of this representation.
    pub api_version: String,
    /// The number of times this event has occurred.
    pub count: usize,
    /// The time at which the event was first recorded.
    pub first_timestamp: String,
    /// The time at which the most recent occurrence was recorded.
    pub last_timestamp: String,
    /// The object that this event is about.
    pub involved_object: ObjectReference,
    /// The REST resource that this object represents.
    pub kind: String,
    /// A human-readable description of the status of this operation.
    pub message: String,
    /// The standard metadata of the object.
    pub metadata: ObjectMeta,
    /// A short, machine-readable reason for the transition into the current
    /// status.
    pub reason: String,
    /// The component that reports this event.
    pub source: EventSource,
    /// The type of this event (Normal, Warning), where the server gives one.
    pub object_type: Option<String>,
}

/// The metadata that every persisted resource has.
#[derive(Clone, Debug, PartialEq, Eq)]
pub struct ObjectMeta {
    /// The server time at which the object was created.
    pub creation_timestamp: String,
    /// The time at which the resource will be deleted, once a graceful
    /// deletion was requested.
    pub deletion_timestamp: Option<String>,
    /// The name, unique within its namespace.
    pub name: String,
    /// The space within which each name must be unique.
    pub namespace: String,
    /// An opaque value that stands for the internal version of the object.
    pub resource_version: String,
    /// A URL that represents this object.
    pub self_link: String,
    /// A value that is unique to this object in time and space.
    pub uid: String,
}

/// Where an event comes from.
#[derive(Clone, Debug, PartialEq, Eq)]
pub struct EventSource {
    /// The component from which the event is generated.
    pub component: String,
    /// The host on which the event is generated.
    pub host: Option<String>,
}

/// Enough information to find the object that an event refers to.
#[derive(Clone, Debug, PartialEq, Eq)]
pub struct ObjectReference {
    /// The API version of the referent.
    pub api_version: String,
    /// The resource version to which this reference is made, if any.
    pub resource_version: Option<String>,
    /// The unique identifier of the referent, if any.
    pub uid: Option<String>,
    /// The part of the object that is referred to, where it is not the whole.
    pub field_path: Option<String>,
    /// The kind of the referent.
    pub kind: String,
    /// The name of the referent.
    pub name: String,
    /// The namespace of the referent.
    pub namespace: String,
}

pub struct EventView {
    pub object: ObjectView,
    pub event_type: Seq<char>,
}

pub struct ObjectView {
    pub api_version: Seq<char>,
    pub count: nat,
    pub first_timestamp: Seq<char>,
    pub last_timestamp: Seq<char>,
    pub involved_object: ObjectReferenceView,
    pub kind: Seq<char>,
    pub message: Seq<char>,
    pub metadata: ObjectMetaView,
    pub reason: Seq<char>,
    pub source: EventSourceView,
    pub object_type: Option<Seq<char>>,
}

pub struct ObjectMetaView {
    pub creation_timestamp: Seq<char>,
    pub deletion_timestamp: Option<Seq<char>>,
    pub name: Seq<char>,
    pub namespace: Seq<char>,
    pub resource_version: Seq<char>,
    pub self_link: Seq<char>,
    pub uid: Seq<char>,
}

pub struct EventSourceView {
    pub component: Seq<char>,
    pub host: Option<Seq<char>>,
}

pub struct ObjectReferenceView {
    pub api_version: Seq<char>,
    pub resource_version: Option<Seq<char>>,
    pub uid: Option<Seq<char>>,
    pub field_path: Option<Seq<char>>,
    pub kind: Seq<char>,
    pub name: Seq<char>,
    pub namespace: Seq<char>,
}

/// The characters of a string that may be absent.
pub open spec fn chars_of(s: Option<String>) -> Option<Seq<char>> {
    match s {
        Some(s) => Some(s@),
        None => None,
    }
}

impl View for ObjectReference {
    type V = ObjectReferenceView;

    open spec fn view(&self) -> ObjectReferenceView {
        ObjectReferenceView {
            api_version: self.api_version@,
            resource_version: chars_of(self.resource_version),
            uid: chars_of(self.uid),
            field_path: chars_of(self.field_path),
            kind: self.kind@,
            name: self.name@,
            namespace: self.namespace@,
        }
    }
}

impl View for EventSource {
    type V = EventSourceView;

    open spec fn view(&self) -> EventSourceView {
        EventSourceView { component: self.component@, host: chars_of(self.host) }
    }
}

impl View for ObjectMeta {
    type V = ObjectMetaView;

    open spec fn view(&self) -> ObjectMetaView {
        ObjectMetaView {
            creation_timestamp: self.creation_timestamp@,
            deletion_timestamp: chars_of(self.deletion_timestamp),
            name: self.name@,
            namespace: self.namespace@,
            resource_version: self.resource_version@,
            self_link: self.self_link@,
            uid: self.uid@,
        }
    }
}

impl View for Object {
    type V = ObjectView;

    open spec fn view(&self) -> ObjectView {
        ObjectView {
            api_version: self.api_version@,
            count: self.count as nat,
            first_timestamp: self.first_timestamp@,
            last_timestamp: self.last_timestamp@,
            involved_object: self.involved_object@,
            kind: self.kind@,
            message: self.message@,
            metadata: self.metadata@,
            reason: self.reason@,
            source: self.source@,
            object_type: chars_of(self.object_type),
        }
    }
}

impl View for Event {
    type V = EventView;

    open spec fn view(&self) -> EventView {
        EventView { object: self.object@, event_type: self.event_type@ }
    }
}

/// The text that the object `j` must hold under `key`: nothing where `j` is
/// no object, has no such member, or holds something else than a string
/// there.
pub open spec fn text_at(j: JsonView, key: Seq<char>) -> Option<Seq<char>> {
    if has_member(j, key) && member_of(j, key) is Text {
        Some(member_of(j, key)->Text_0)
    } else {
        None
    }
}

/// The text that `j` may hold under `key`. A missing member and `null` both
/// read as absent, `Some(None)`; a member that is neither a string nor `null`
/// cannot be read, `None`.
pub open spec fn optional_text_at(j: JsonView, key: Seq<char>) -> Option<Option<Seq<char>>> {
    if !has_member(j, key) || member_of(j, key) is Null {
        Some(None)
    } else if member_of(j, key) is Text {
        Some(Some(member_of(j, key)->Text_0))
    } else {
        None
    }
}

/// The count that the object `j` must hold under `key`: a whole,
/// non-negative number that fits the machine's word.
pub open spec fn count_at(j: JsonView, key: Seq<char>) -> Option<nat> {
    if has_member(j, key) && member_of(j, key) is Count && member_of(j, key)->Count_0
        <= usize::MAX {
        Some(member_of(j, key)->Count_0 as nat)
    } else {
        None
    }
}

/// The reference that the document `j` describes, if it describes one.
pub open spec fn reference_of(j: JsonView) -> Option<ObjectReferenceView> {
    if text_at(j, "apiVersion"@) is Some && optional_text_at(j, "resourceVersion"@) is Some
        && optional_text_at(j, "uid"@) is Some && optional_text_at(j, "fieldPath"@) is Some
        && text_at(j, "kind"@) is Some && text_at(j, "name"@) is Some && text_at(
        j,
        "namespace"@,
    ) is Some {
        Some(
            ObjectReferenceView {
                api_version: text_at(j, "apiVersion"@)->Some_0,
                resource_version: optional_text_at(j, "resourceVersion"@)->Some_0,
                uid: optional_text_at(j, "uid"@)->Some_0,
                field_path: optional_text_at(j, "fieldPath"@)->Some_0,
                kind: text_at(j, "kind"@)->Some_0,
                name: text_at(j, "name"@)->Some_0,
                namespace: text_at(j, "namespace"@)->Some_0,
            },
        )
    } else {
        None
    }
}

/// The source descriptor that the document `j` describes, if it describes
/// one.
pub open spec fn source_of(j: JsonView) -> Option<EventSourceView> {
    if text_at(j, "component"@) is Some && optional_text_at(j, "host"@) is Some {
        Some(
            EventSourceView {
                component: text_at(j, "component"@)->Some_0,
                host: optional_text_at(j, "host"@)->Some_0,
            },
        )
    } else {
        None
    }
}

/// The metadata block that the document `j` describes, if it describes one.
pub open spec fn meta_of(j: JsonView) -> Option<ObjectMetaView> {
    if text_at(j, "creationTimestamp"@) is Some && optional_text_at(j, "deletionTimestamp"@)
        is Some && text_at(j, "name"@) is Some && text_at(j, "namespace"@) is Some && text_at(
        j,
        "resourceVersion"@,
    ) is Some && text_at(j, "selfLink"@) is Some && text_at(j, "uid"@) is Some {
        Some(
            ObjectMetaView {
                creation_timestamp: text_at(j, "creationTimestamp"@)->Some_0,
                deletion_timestamp: optional_text_at(j, "deletionTimestamp"@)->Some_0,
                name: text_at(j, "name"@)->Some_0,
                namespace: text_at(j, "namespace"@)->Some_0,
                resource_version: text_at(j, "resourceVersion"@)->Some_0,
                self_link: text_at(j, "selfLink"@)->Some_0,
                uid: text_at(j, "uid"@)->Some_0,
            },
        )
    } else {
        None
    }
}

/// The part of `j` under `key` that a nested record is read from: the member
/// where there is one, and otherwise `null`, from which no record can be
/// read.
pub open spec fn part_at(j: JsonView, key: Seq<char>) -> JsonView {
    if has_member(j, key) {
        member_of(j, key)
    } else {
        JsonView::Null
    }
}

/// The event description that the document `j` holds, if it holds one.
pub open spec fn object_of(j: JsonView) -> Option<ObjectView> {
    if text_at(j, "apiVersion"@) is Some && count_at(j, "count"@) is Some && text_at(
        j,
        "firstTimestamp"@,
    ) is Some && text_at(j, "lastTimestamp"@) is Some && reference_of(
        part_at(j, "involvedObject"@),
    ) is Some && text_at(j, "kind"@) is Some && text_at(j, "message"@) is Some && meta_of(
        part_at(j, "metadata"@),
    ) is Some && text_at(j, "reason"@) is Some && source_of(part_at(j, "source"@)) is Some
        && optional_text_at(j, "type"@) is Some {
        Some(
            ObjectView {
                api_version: text_at(j, "apiVersion"@)->Some_0,
                count: count_at(j, "count"@)->Some_0,
                first_timestamp: text_at(j, "firstTimestamp"@)->Some_0,
                last_timestamp: text_at(j, "lastTimestamp"@)->Some_0,
                involved_object: reference_of(part_at(j, "involvedObject"@))->Some_0,
                kind: text_at(j, "kind"@)->Some_0,
                message: text_at(j, "message"@)->Some_0,
                metadata: meta_of(part_at(j, "metadata"@))->Some_0,
                reason: text_at(j, "reason"@)->Some_0,
                source: source_of(part_at(j, "source"@))->Some_0,
                object_type: optional_text_at(j, "type"@)->Some_0,
            },
        )
    } else {
        None
    }
}

/// The record that the document `j` holds, if it holds one: an object with
/// the kind of change under `type` and the event under `object`.
pub open spec fn event_of(j: JsonView) -> Option<EventView> {
    if object_of(part_at(j, "object"@)) is Some && text_at(j, "type"@) is Some {
        Some(
            EventView {
                object: object_of(part_at(j, "object"@))->Some_0,
                event_type: text_at(j, "type"@)->Some_0,
            },
        )
    } else {
        None
    }
}

/// The document for a text that may be absent: `null` where it is.
pub open spec fn optional_text_json(s: Option<Seq<char>>) -> JsonView {
    match s {
        Some(t) => JsonView::Text(t),
        None => JsonView::Null,
    }
}

/// The document that a reference is written as: an object with one member
/// for each field.
pub open spec fn reference_json(r: ObjectReferenceView) -> JsonView {
    JsonView::Object(
        Map::empty().insert("apiVersion"@, JsonView::Text(r.api_version)).insert(
            "resourceVersion"@,
            optional_text_json(r.resource_version),
        ).insert("uid"@, optional_text_json(r.uid)).insert(
            "fieldPath"@,
            optional_text_json(r.field_path),
        ).insert("kind"@, JsonView::Text(r.kind)).insert("name"@, JsonView::Text(r.name)).insert(
            "namespace"@,
            JsonView::Text(r.namespace),
        ),
    )
}

/// The document that a source descriptor is written as.
pub open spec fn source_json(s: EventSourceView) -> JsonView {
    JsonView::Object(
        Map::empty().insert("component"@, JsonView::Text(s.component)).insert(
            "host"@,
            optional_text_json(s.host),
        ),
    )
}

/// The document that a metadata block is written as.
pub open spec fn meta_json(m: ObjectMetaView) -> JsonView {
    JsonView::Object(
        Map::empty().insert("creationTimestamp"@, JsonView::Text(m.creation_timestamp)).insert(
            "deletionTimestamp"@,
            optional_text_json(m.deletion_timestamp),
        ).insert("name"@, JsonView::Text(m.name)).insert(
            "namespace"@,
            JsonView::Text(m.namespace),
        ).insert("resourceVersion"@, JsonView::Text(m.resource_version)).insert(
            "selfLink"@,
            JsonView::Text(m.self_link),
        ).insert("uid"@, JsonView::Text(m.uid)),
    )
}

/// The document that an event description is written as.
pub open spec fn object_json(o: ObjectView) -> JsonView
    recommends
        o.count <= u64::MAX,
{
    JsonView::Object(
        Map::empty().insert("apiVersion"@, JsonView::Text(o.api_version)).insert(
            "count"@,
            JsonView::Count(o.count as u64),
        ).insert("firstTimestamp"@, JsonView::Text(o.first_timestamp)).insert(
            "lastTimestamp"@,
            JsonView::Text(o.last_timestamp),
        ).insert("involvedObject"@, reference_json(o.involved_object)).insert(
            "kind"@,
            JsonView::Text(o.kind),
        ).insert("message"@, JsonView::Text(o.message)).insert(
            "metadata"@,
            meta_json(o.metadata),
        ).insert("reason"@, JsonView::Text(o.reason)).insert(
            "source"@,
            source_json(o.source),
        ).insert("type"@, optional_text_json(o.object_type)),
    )
}

/// The document that a record is written as.
pub open spec fn event_json(e: EventView) -> JsonView
    recommends
        e.object.count <= u64::MAX,
{
    JsonView::Object(
        Map::empty().insert("object"@, object_json(e.object)).insert(
            "type"@,
            JsonView::Text(e.event_type),
        ),
    )
}

/// A reference that is written as a document and read back is unchanged.
pub proof fn lemma_reference_round_trip(r: ObjectReferenceView)
    ensures
        reference_of(reference_json(r)) == Some(r),
{
    reveal_strlit("apiVersion");
    reveal_strlit("resourceVersion");
    reveal_strlit("uid");
    reveal_strlit("fieldPath");
    reveal_strlit("kind");
    reveal_strlit("name");
    reveal_strlit("namespace");
    assert("apiVersion"@.len() != "resourceVersion"@.len());
    assert("apiVersion"@.len() != "uid"@.len());
    assert("apiVersion"@.len() != "fieldPath"@.len());
    assert("apiVersion"@.len() != "kind"@.len());
    assert("apiVersion"@.len() != "name"@.len());
    assert("apiVersion"@.len() != "namespace"@.len());
    assert("resourceVersion"@.len() != "uid"@.len());
    assert("resourceVersion"@.len() != "fieldPath"@.len());
    assert("resourceVersion"@.len() != "kind"@.len());
    assert("resourceVersion"@.len() != "name"@.len());
    assert("resourceVersion"@.len() != "namespace"@.len());
    assert("uid"@.len() != "fieldPath"@.len());
    assert("uid"@.len() != "kind"@.len());
    assert("uid"@.len() != "name"@.len());
    assert("uid"@.len() != "namespace"@.len());
    assert("fieldPath"@.len() != "kind"@.len());
    assert("fieldPath"@.len() != "name"@.len());
    assert("fieldPath"@[0] != "namespace"@[0]);
    assert("kind"@[0] != "name"@[0]);
    assert("kind"@.len() != "namespace"@.len());
    assert("name"@.len() != "namespace"@.len());
}

/// A source descriptor that is written as a document and read back is
/// unchanged.
pub proof fn lemma_source_round_trip(s: EventSourceView)
    ensures
        source_of(source_json(s)) == Some(s),
{
    reveal_strlit("component");
    reveal_strlit("host");
    assert("component"@.len() != "host"@.len());
}

/// A metadata block that is written as a document and read back is
/// unchanged.
pub proof fn lemma_meta_round_trip(m: ObjectMetaView)
    ensures
        meta_of(meta_json(m)) == Some(m),
{
    reveal_strlit("creationTimestamp");
    reveal_strlit("deletionTimestamp");
    reveal_strlit("name");
    reveal_strlit("namespace");
    reveal_strlit("resourceVersion");
    reveal_strlit("selfLink");
    reveal_strlit("uid");
    assert("creationTimestamp"@[0] != "deletionTimestamp"@[0]);
    assert("creationTimestamp"@.len() != "name"@.len());
    assert("creationTimestamp"@.len() != "namespace"@.len());
    assert("creationTimestamp"@.len() != "resourceVersion"@.len());
    assert("creationTimestamp"@.len() != "selfLink"@.len());
    assert("creationTimestamp"@.len() != "uid"@.len());
    assert("deletionTimestamp"@.len() != "name"@.len());
    assert("deletionTimestamp"@.len() != "namespace"@.len());
    assert("deletionTimestamp"@.len() != "resourceVersion"@.len());
    assert("deletionTimestamp"@.len() != "selfLink"@.len());
    assert("deletionTimestamp"@.len() != "uid"@.len());
    assert("name"@.len() != "namespace"@.len());
    assert("name"@.len() != "resourceVersion"@.len());
    assert("name"@.len() != "selfLink"@.len());
    assert("name"@.len() != "uid"@.len());
    assert("namespace"@.len() != "resourceVersion"@.len());
    assert("namespace"@.len() != "selfLink"@.len());
    assert("namespace"@.len() != "uid"@.len());
    assert("resourceVersion"@.len() != "selfLink"@.len());
    assert("resourceVersion"@.len() != "uid"@.len());
    assert("selfLink"@.len() != "uid"@.len());
}

/// An event description that is written as a document and read back is
/// unchanged.
pub proof fn lemma_object_round_trip(o: Object)
    ensures
        object_of(object_json(o@)) == Some(o@),
{
    reveal_strlit("apiVersion");
    reveal_strlit("count");
    reveal_strlit("firstTimestamp");
    reveal_strlit("lastTimestamp");
    reveal_strlit("involvedObject");
    reveal_strlit("kind");
    reveal_strlit("message");
    reveal_strlit("metadata");
    reveal_strlit("reason");
    reveal_strlit("source");
    reveal_strlit("type");
    assert("apiVersion"@.len() != "count"@.len());
    assert("apiVersion"@.len() != "firstTimestamp"@.len());
    assert("apiVersion"@.len() != "lastTimestamp"@.len());
    assert("apiVersion"@.len() != "involvedObject"@.len());
    assert("apiVersion"@.len() != "kind"@.len());
    assert("apiVersion"@.len() != "message"@.len());
    assert("apiVersion"@.len() != "metadata"@.len());
    assert("apiVersion"@.len() != "reason"@.len());
    assert("apiVersion"@.len() != "source"@.len());
    assert("apiVersion"@.len() != "type"@.len());
    assert("count"@.len() != "firstTimestamp"@.len());
    assert("count"@.len() != "lastTimestamp"@.len());
    assert("count"@.len() != "involvedObject"@.len());
    assert("count"@.len() != "kind"@.len());
    assert("count"@.len() != "message"@.len());
    assert("count"@.len() != "metadata"@.len());
    assert("count"@.len() != "reason"@.len());
    assert("count"@.len() != "source"@.len());
    assert("count"@.len() != "type"@.len());
    assert("firstTimestamp"@.len() != "lastTimestamp"@.len());
    assert("firstTimestamp"@[0] != "involvedObject"@[0]);
    assert("firstTimestamp"@.len() != "kind"@.len());
    assert("firstTimestamp"@.len() != "message"@.len());
    assert("firstTimestamp"@.len() != "metadata"@.len());
    assert("firstTimestamp"@.len() != "reason"@.len());
    assert("firstTimestamp"@.len() != "source"@.len());
    assert("firstTimestamp"@.len() != "type"@.len());
    assert("lastTimestamp"@.len() != "involvedObject"@.len());
    assert("lastTimestamp"@.len() != "kind"@.len());
    assert("lastTimestamp"@.len() != "message"@.len());
    assert("lastTimestamp"@.len() != "metadata"@.len());
    assert("lastTimestamp"@.len() != "reason"@.len());
    assert("lastTimestamp"@.len() != "source"@.len());
    assert("lastTimestamp"@.len() != "type"@.len());
    assert("involvedObject"@.len() != "kind"@.len());
    assert("involvedObject"@.len() != "message"@.len());
    assert("involvedObject"@.len() != "metadata"@.len());
    assert("involvedObject"@.len() != "reason"@.len());
    assert("involvedObject"@.len() != "source"@.len());
    assert("involvedObject"@.len() != "type"@.len());
    assert("kind"@.len() != "message"@.len());
    assert("kind"@.len() != "metadata"@.len());
    assert("kind"@.len() != "reason"@.len());
    assert("kind"@.len() != "source"@.len());
    assert("kind"@[0] != "type"@[0]);
    assert("message"@.len() != "metadata"@.len());
    assert("message"@.len() != "reason"@.len());
    assert("message"@.len() != "source"@.len());
    assert("message"@.len() != "type"@.len());
    assert("metadata"@.len() != "reason"@.len());
    assert("metadata"@.len() != "source"@.len());
    assert("metadata"@.len() != "type"@.len());
    assert("reason"@[0] != "source"@[0]);
    assert("reason"@.len() != "type"@.len());
    assert("source"@.len() != "type"@.len());
    lemma_reference_round_trip(o@.involved_object);
    lemma_meta_round_trip(o@.metadata);
    lemma_source_round_trip(o@.source);
}

/// A record that is written as a document and read back is unchanged. In
/// particular a field that is absent is absent again.
pub proof fn lemma_event_round_trip(e: Event)
    ensures
        event_of(event_json(e@)) == Some(e@),
{
    reveal_strlit("object");
    reveal_strlit("type");
    assert("object"@.len() != "type"@.len());
    lemma_object_round_trip(e.object);
}

/// A metadata block without a deletion timestamp, or with `null` in its
/// place, reads with that field absent.
pub proof fn lemma_absent_deletion_timestamp(j: JsonView)
    requires
        meta_of(j) is Some,
        !has_member(j, "deletionTimestamp"@) || member_of(j, "deletionTimestamp"@) is Null,
    ensures
        meta_of(j)->Some_0.deletion_timestamp is None,
{
}

fn optional_text_value(s: &Option<String>) -> (v: Value)
    ensures
        json_of(v) == optional_text_json(chars_of(*s)),
{
    match s {
        Some(t) => text(t.clone()),
        None => null(),
    }
}

fn required_text(v: &Value, key: &str) -> (r: Option<String>)
    ensures
        chars_of(r) == text_at(json_of(*v), key@),
{
    match member(v, key) {
        Some(m) => match as_text(m) {
            Some(s) => Some(s.to_owned()),
            None => None,
        },
        None => None,
    }
}

fn optional_text(v: &Value, key: &str) -> (r: Option<Option<String>>)
    ensures
        r matches Some(s) ==> optional_text_at(json_of(*v), key@) == Some(chars_of(s)),
        r is None ==> optional_text_at(json_of(*v), key@) is None,
{
    match member(v, key) {
        Some(m) => {
            if is_null(m) {
                Some(None)
            } else {
                match as_text(m) {
                    Some(s) => Some(Some(s.to_owned())),
                    None => None,
                }
            }
        },
        None => Some(None),
    }
}

fn required_count(v: &Value, key: &str) -> (r: Option<usize>)
    ensures
        r matches Some(n) ==> count_at(json_of(*v), key@) == Some(n as nat),
        r is None ==> count_at(json_of(*v), key@) is None,
{
    match member(v, key) {
        Some(m) => match as_count(m) {
            Some(n) => {
                if n <= usize::MAX as u64 {
                    Some(n as usize)
                } else {
                    None
                }
            },
            None => None,
        },
        None => None,
    }
}

impl ObjectReference {
    /// Writes the reference as a document.
    pub fn encode(&self) -> (v: Value)
        ensures
            json_of(v) == reference_json(self@),
    {
        let mut v = object();
        put(&mut v, "apiVersion", text(self.api_version.clone()));
        put(&mut v, "resourceVersion", optional_text_value(&self.resource_version));
        put(&mut v, "uid", optional_text_value(&self.uid));
        put(&mut v, "fieldPath", optional_text_value(&self.field_path));
        put(&mut v, "kind", text(self.kind.clone()));
        put(&mut v, "name", text(self.name.clone()));
        put(&mut v, "namespace", text(self.namespace.clone()));
        v
    }

    /// Reads a reference from a parsed document: `Some` exactly where the
    /// document describes one.
    pub fn decode(v: &Value) -> (r: Option<ObjectReference>)
        ensures
            r matches Some(x) ==> reference_of(json_of(*v)) == Some(x@),
            r is None ==> reference_of(json_of(*v)) is None,
    {
        let api_version = match required_text(v, "apiVersion") {
            Some(s) => s,
            None => return None,
        };
        let resource_version = match optional_text(v, "resourceVersion") {
            Some(s) => s,
            None => return None,
        };
        let uid = match optional_text(v, "uid") {
            Some(s) => s,
            None => return None,
        };
        let field_path = match optional_text(v, "fieldPath") {
            Some(s) => s,
            None => return None,
        };
        let kind = match required_text(v, "kind") {
            Some(s) => s,
            None => return None,
        };
        let name = match required_text(v, "name") {
            Some(s) => s,
            None => return None,
        };
        let namespace = match required_text(v, "namespace") {
            Some(s) => s,
            None => return None,
        };
        Some(ObjectReference { api_version, resource_version, uid, field_path, kind, name, namespace })
    }
}

impl EventSource {
    /// Writes the source descriptor as a document.
    pub fn encode(&self) -> (v: Value)
        ensures
            json_of(v) == source_json(self@),
    {
        let mut v = object();
        put(&mut v, "component", text(self.component.clone()));
        put(&mut v, "host", optional_text_value(&self.host));
        v
    }

    /// Reads a source descriptor from a parsed document: `Some` exactly where
    /// the document describes one.
    pub fn decode(v: &Value) -> (r: Option<EventSource>)
        ensures
            r matches Some(x) ==> source_of(json_of(*v)) == Some(x@),
            r is None ==> source_of(json_of(*v)) is None,
    {
        let component = match required_text(v, "component") {
            Some(s) => s,
            None => return None,
        };
        let host = match optional_text(v, "host") {
            Some(s) => s,
            None => return None,
        };
        Some(EventSource { component, host })
    }
}

impl ObjectMeta {
    /// Writes the metadata block as a document.
    pub fn encode(&self) -> (v: Value)
        ensures
            json_of(v) == meta_json(self@),
    {
        let mut v = object();
        put(&mut v, "creationTimestamp", text(self.creation_timestamp.clone()));
        put(&mut v, "deletionTimestamp", optional_text_value(&self.deletion_timestamp));
        put(&mut v, "name", text(self.name.clone()));
        put(&mut v, "namespace", text(self.namespace.clone()));
        put(&mut v, "resourceVersion", text(self.resource_version.clone()));
        put(&mut v, "selfLink", text(self.self_link.clone()));
        put(&mut v, "uid", text(self.uid.clone()));
        v
    }

    /// Reads a metadata block from a parsed document: `Some` exactly where
    /// the document describes one.
    pub fn decode(v: &Value) -> (r: Option<ObjectMeta>)
        ensures
            r matches Some(x) ==> meta_of(json_of(*v)) == Some(x@),
            r is None ==> meta_of(json_of(*v)) is None,
    {
        let creation_timestamp = match required_text(v, "creationTimestamp") {
            Some(s) => s,
            None => return None,
        };
        let deletion_timestamp = match optional_text(v, "deletionTimestamp") {
            Some(s) => s,
            None => return None,
        };
        let name = match required_text(v, "name") {
            Some(s) => s,
            None => return None,
        };
        let namespace = match required_text(v, "namespace") {
            Some(s) => s,
            None => return None,
        };
        let resource_version = match required_text(v, "resourceVersion") {
            Some(s) => s,
            None => return None,
        };
        let self_link = match required_text(v, "selfLink") {
            Some(s) => s,
            None => return None,
        };
        let uid = match required_text(v, "uid") {
            Some(s) => s,
            None => return None,
        };
        Some(
            ObjectMeta {
                creation_timestamp,
                deletion_timestamp,
                name,
                namespace,
                resource_version,
                self_link,
                uid,
            },
        )
    }
}

impl Object {
    /// Writes the event description as a document.
    pub fn encode(&self) -> (v: Value)
        ensures
            json_of(v) == object_json(self@),
    {
        let mut v = object();
        put(&mut v, "apiVersion", text(self.api_version.clone()));
        put(&mut v, "count", count(self.count as u64));
        put(&mut v, "firstTimestamp", text(self.first_timestamp.clone()));
        put(&mut v, "lastTimestamp", text(self.last_timestamp.clone()));
        put(&mut v, "involvedObject", self.involved_object.encode());
        put(&mut v, "kind", text(self.kind.clone()));
        put(&mut v, "message", text(self.message.clone()));
        put(&mut v, "metadata", self.metadata.encode());
        put(&mut v, "reason", text(self.reason.clone()));
        put(&mut v, "source", self.source.encode());
        put(&mut v, "type", optional_text_value(&self.object_type));
        v
    }

    /// Reads an event description from a parsed document: `Some` exactly
    /// where the document holds one.
    pub fn decode(v: &Value) -> (r: Option<Object>)
        ensures
            r matches Some(x) ==> object_of(json_of(*v)) == Some(x@),
            r is None ==> object_of(json_of(*v)) is None,
    {
        let api_version = match required_text(v, "apiVersion") {
            Some(s) => s,
            None => return None,
        };
        let count = match required_count(v, "count") {
            Some(n) => n,
            None => return None,
        };
        let first_timestamp = match required_text(v, "firstTimestamp") {
            Some(s) => s,
            None => return None,
        };
        let last_timestamp = match required_text(v, "lastTimestamp") {
            Some(s) => s,
            None => return None,
        };
        let involved_object = match member(v, "involvedObject") {
            Some(m) => match ObjectReference::decode(m) {
                Some(x) => x,
                None => return None,
            },
            None => return None,
        };
        let kind = match required_text(v, "kind") {
            Some(s) => s,
            None => return None,
        };
        let message = match required_text(v, "message") {
            Some(s) => s,
            None => return None,
        };
        let metadata = match member(v, "metadata") {
            Some(m) => match ObjectMeta::decode(m) {
                Some(x) => x,
                None => return None,
            },
            None => return None,
        };
        let reason = match required_text(v, "reason") {
            Some(s) => s,
            None => return None,
        };
        let source = match member(v, "source") {
            Some(m) => match EventSource::decode(m) {
                Some(x) => x,
                None => return None,
            },
            None => return None,
        };
        let object_type = match optional_text(v, "type") {
            Some(s) => s,
            None => return None,
        };
        Some(
            Object {
                api_version,
                count,
                first_timestamp,
                last_timestamp,
                involved_object,
                kind,
                message,
                metadata,
                reason,
                source,
                object_type,
            },
        )
    }
}

impl Event {
    /// Writes the record as a document.
    pub fn encode(&self) -> (v: Value)
        ensures
            json_of(v) == event_json(self@),
    {
        let mut v = object();
        put(&mut v, "object", self.object.encode());
        put(&mut v, "type", text(self.event_type.clone()));
        v
    }

    /// Writes the record out as the bytes of one JSON document: always
    /// `Some`, with the text of the document that `encode` gives.
    pub fn to_json(&self) -> (r: Option<Vec<u8>>)
        ensures
            r is Some,
            r matches Some(bytes) ==> bytes@ == json_text(event_json(self@)),
    {
        let v = self.encode();
        render(&v)
    }

    /// Reads a record from a parsed document: `Some` exactly where the
    /// document holds one.
    pub fn decode(v: &Value) -> (r: Option<Event>)
        ensures
            r matches Some(x) ==> event_of(json_of(*v)) == Some(x@),
            r is None ==> event_of(json_of(*v)) is None,
    {
        let object = match member(v, "object") {
            Some(m) => match Object::decode(m) {
                Some(x) => x,
                None => return None,
            },
            None => return None,
        };
        let event_type = match required_text(v, "type") {
            Some(s) => s,
            None => return None,
        };
        Some(Event { object, event_type })
    }
}

} // verus!
