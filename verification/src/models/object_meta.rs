use std::collections::HashMap;

use vstd::prelude::*;

use crate::models::initializer::{opt_as_str, opt_str_view, opt_string_view, Initializer, InitializerView};
use crate::models::owner_reference::{OwnerReference, OwnerReferenceView};

verus! {

/// The earliest second a timestamp can hold: -262144-01-01T00:00:00 UTC.
pub const MIN_TIMESTAMP_SECS: i64 = -8334632937600;

/// The latest second a timestamp can hold: +262143-12-31T23:59:59 UTC.
pub const MAX_TIMESTAMP_SECS: i64 = 8210298412799;

/// The seconds and nanoseconds that make a point in time: a second between
/// the years -262144 and 262143, and fewer than two seconds' worth of
/// nanoseconds past it (the second one for a leap second).
pub open spec fn valid_timestamp(secs: i64, nanos: u32) -> bool {
    &&& MIN_TIMESTAMP_SECS <= secs <= MAX_TIMESTAMP_SECS
    &&& nanos < 2_000_000_000
}

/// A point in time in UTC: whole seconds since the Unix epoch and the
/// nanoseconds past that second. Every value is a valid point in time.
#[derive(Debug, Clone, Copy, PartialEq, Eq, Structural)]
pub struct Timestamp {
    secs: i64,
    nanos: u32,
}

impl View for Timestamp {
    type V = (i64, u32);

    /// The seconds since the epoch and the nanoseconds past them.
    closed spec fn view(&self) -> (i64, u32) {
        (self.secs, self.nanos)
    }
}

impl Timestamp {
    #[verifier::type_invariant]
    spec fn inv(self) -> bool {
        valid_timestamp(self.secs, self.nanos)
    }

    /// The point in time `secs` seconds after the epoch plus `nanos`
    /// nanoseconds, or `None` when these make no valid point in time.
    pub fn new(secs: i64, nanos: u32) -> (r: Option<Timestamp>)
        ensures
            r is Some <==> valid_timestamp(secs, nanos),
            r matches Some(t) ==> t@ == (secs, nanos),
    {
        if MIN_TIMESTAMP_SECS <= secs && secs <= MAX_TIMESTAMP_SECS && nanos < 2_000_000_000 {
            Some(Timestamp { secs, nanos })
        } else {
            None
        }
    }

    /// Seconds since the Unix epoch.
    pub fn secs(&self) -> (r: i64)
        ensures
            r == self@.0,
            valid_timestamp(self@.0, self@.1),
    {
        proof {
            use_type_invariant(self);
        }
        self.secs
    }

    /// Nanoseconds past that second.
    pub fn nanos(&self) -> (r: u32)
        ensures
            r == self@.1,
            valid_timestamp(self@.0, self@.1),
    {
        proof {
            use_type_invariant(self);
        }
        self.nanos
    }
}

/// The views of a list of strings.
pub open spec fn strings_view(v: Seq<String>) -> Seq<Seq<char>> {
    v.map_values(|s: String| s@)
}

/// The views of a list of initializers.
pub open spec fn initializers_view(v: Seq<Initializer>) -> Seq<InitializerView> {
    v.map_values(|i: Initializer| i@)
}

/// The views of a list of owner references.
pub open spec fn owner_references_view(v: Seq<OwnerReference>) -> Seq<OwnerReferenceView> {
    v.map_values(|o: OwnerReference| o@)
}

/// What an `ObjectMeta` holds, as mathematical values.
pub struct ObjectMetaView {
    pub annotations: Option<Map<String, String>>,
    pub cluster_name: Option<Seq<char>>,
    pub creation_timestamp: Option<Timestamp>,
    pub deletion_grace_period_seconds: Option<i64>,
    pub deletion_timestamp: Option<Timestamp>,
    pub finalizers: Option<Seq<Seq<char>>>,
    pub generate_name: Option<Seq<char>>,
    pub generation: Option<i64>,
    pub initializers: Option<Seq<InitializerView>>,
    pub labels: Option<Map<String, String>>,
    pub name: Option<Seq<char>>,
    pub namespace: Option<Seq<char>>,
    pub owner_references: Option<Seq<OwnerReferenceView>>,
    pub resource_version: Option<Seq<char>>,
    pub self_link: Option<Seq<char>>,
    pub uid: Option<Seq<char>>,
}

impl ObjectMetaView {
    /// The metadata with no field set.
    pub open spec fn empty() -> ObjectMetaView {
        ObjectMetaView {
            annotations: None,
            cluster_name: None,
            creation_timestamp: None,
            deletion_grace_period_seconds: None,
            deletion_timestamp: None,
            finalizers: None,
            generate_name: None,
            generation: None,
            initializers: None,
            labels: None,
            name: None,
            namespace: None,
            owner_references: None,
            resource_version: None,
            self_link: None,
            uid: None,
        }
    }

    pub open spec fn with_cluster_name(self, v: Seq<char>) -> ObjectMetaView {
        ObjectMetaView { cluster_name: Some(v), ..self }
    }

    pub open spec fn with_generate_name(self, v: Seq<char>) -> ObjectMetaView {
        ObjectMetaView { generate_name: Some(v), ..self }
    }

    pub open spec fn with_name(self, v: Seq<char>) -> ObjectMetaView {
        ObjectMetaView { name: Some(v), ..self }
    }

    pub open spec fn with_namespace(self, v: Seq<char>) -> ObjectMetaView {
        ObjectMetaView { namespace: Some(v), ..self }
    }

    pub open spec fn with_resource_version(self, v: Seq<char>) -> ObjectMetaView {
        ObjectMetaView { resource_version: Some(v), ..self }
    }

    pub open spec fn with_self_link(self, v: Seq<char>) -> ObjectMetaView {
        ObjectMetaView { self_link: Some(v), ..self }
    }

    pub open spec fn with_uid(self, v: Seq<char>) -> ObjectMetaView {
        ObjectMetaView { uid: Some(v), ..self }
    }

    pub open spec fn with_annotations(self, v: Map<String, String>) -> ObjectMetaView {
        ObjectMetaView { annotations: Some(v), ..self }
    }

    pub open spec fn with_creation_timestamp(self, v: Timestamp) -> ObjectMetaView {
        ObjectMetaView { creation_timestamp: Some(v), ..self }
    }

    pub open spec fn with_deletion_grace_period_seconds(self, v: i64) -> ObjectMetaView {
        ObjectMetaView { deletion_grace_period_seconds: Some(v), ..self }
    }

    pub open spec fn with_deletion_timestamp(self, v: Timestamp) -> ObjectMetaView {
        ObjectMetaView { deletion_timestamp: Some(v), ..self }
    }

    pub open spec fn with_finalizers(self, v: Seq<Seq<char>>) -> ObjectMetaView {
        ObjectMetaView { finalizers: Some(v), ..self }
    }

    pub open spec fn with_generation(self, v: i64) -> ObjectMetaView {
        ObjectMetaView { generation: Some(v), ..self }
    }

    pub open spec fn with_initializers(self, v: Seq<InitializerView>) -> ObjectMetaView {
        ObjectMetaView { initializers: Some(v), ..self }
    }

    pub open spec fn with_labels(self, v: Map<String, String>) -> ObjectMetaView {
        ObjectMetaView { labels: Some(v), ..self }
    }

    pub open spec fn with_owner_references(self, v: Seq<OwnerReferenceView>) -> ObjectMetaView {
        ObjectMetaView { owner_references: Some(v), ..self }
    }

}

/// The fields of `ObjectMeta`, to say which one a setter touches.
#[derive(PartialEq, Eq, Structural)]
pub enum ObjectMetaField {
    Annotations,
    ClusterName,
    CreationTimestamp,
    DeletionGracePeriodSeconds,
    DeletionTimestamp,
    Finalizers,
    GenerateName,
    Generation,
    Initializers,
    Labels,
    Name,
    Namespace,
    OwnerReferences,
    ResourceVersion,
    SelfLink,
    Uid,
}

/// True when `a` and `b` hold the same value in every field but `f`.
pub open spec fn objectmeta_agrees_except(a: ObjectMetaView, b: ObjectMetaView, f: ObjectMetaField) -> bool {
    &&& f != ObjectMetaField::Annotations ==> a.annotations == b.annotations
    &&& f != ObjectMetaField::ClusterName ==> a.cluster_name == b.cluster_name
    &&& f != ObjectMetaField::CreationTimestamp ==> a.creation_timestamp == b.creation_timestamp
    &&& f != ObjectMetaField::DeletionGracePeriodSeconds ==> a.deletion_grace_period_seconds == b.deletion_grace_period_seconds
    &&& f != ObjectMetaField::DeletionTimestamp ==> a.deletion_timestamp == b.deletion_timestamp
    &&& f != ObjectMetaField::Finalizers ==> a.finalizers == b.finalizers
    &&& f != ObjectMetaField::GenerateName ==> a.generate_name == b.generate_name
    &&& f != ObjectMetaField::Generation ==> a.generation == b.generation
    &&& f != ObjectMetaField::Initializers ==> a.initializers == b.initializers
    &&& f != ObjectMetaField::Labels ==> a.labels == b.labels
    &&& f != ObjectMetaField::Name ==> a.name == b.name
    &&& f != ObjectMetaField::Namespace ==> a.namespace == b.namespace
    &&& f != ObjectMetaField::OwnerReferences ==> a.owner_references == b.owner_references
    &&& f != ObjectMetaField::ResourceVersion ==> a.resource_version == b.resource_version
    &&& f != ObjectMetaField::SelfLink ==> a.self_link == b.self_link
    &&& f != ObjectMetaField::Uid ==> a.uid == b.uid
}

/// Each setter is read back by its getter: after `with_x(v)`, `x()` gives `v`.
pub proof fn law_objectmeta_set_then_get(m: ObjectMetaView, annotations: Map<String, String>, cluster_name: Seq<char>, creation_timestamp: Timestamp, deletion_grace_period_seconds: i64, deletion_timestamp: Timestamp, finalizers: Seq<Seq<char>>, generate_name: Seq<char>, generation: i64, initializers: Seq<InitializerView>, labels: Map<String, String>, name: Seq<char>, namespace: Seq<char>, owner_references: Seq<OwnerReferenceView>, resource_version: Seq<char>, self_link: Seq<char>, uid: Seq<char>)
    ensures
        m.with_annotations(annotations).annotations == Some(annotations),
        m.with_cluster_name(cluster_name).cluster_name == Some(cluster_name),
        m.with_creation_timestamp(creation_timestamp).creation_timestamp == Some(creation_timestamp),
        m.with_deletion_grace_period_seconds(deletion_grace_period_seconds).deletion_grace_period_seconds == Some(deletion_grace_period_seconds),
        m.with_deletion_timestamp(deletion_timestamp).deletion_timestamp == Some(deletion_timestamp),
        m.with_finalizers(finalizers).finalizers == Some(finalizers),
        m.with_generate_name(generate_name).generate_name == Some(generate_name),
        m.with_generation(generation).generation == Some(generation),
        m.with_initializers(initializers).initializers == Some(initializers),
        m.with_labels(labels).labels == Some(labels),
        m.with_name(name).name == Some(name),
        m.with_namespace(namespace).namespace == Some(namespace),
        m.with_owner_references(owner_references).owner_references == Some(owner_references),
        m.with_resource_version(resource_version).resource_version == Some(resource_version),
        m.with_self_link(self_link).self_link == Some(self_link),
        m.with_uid(uid).uid == Some(uid),
{
}

/// Each setter changes its own field and no other.
pub proof fn law_objectmeta_set_keeps_other_fields(m: ObjectMetaView, annotations: Map<String, String>, cluster_name: Seq<char>, creation_timestamp: Timestamp, deletion_grace_period_seconds: i64, deletion_timestamp: Timestamp, finalizers: Seq<Seq<char>>, generate_name: Seq<char>, generation: i64, initializers: Seq<InitializerView>, labels: Map<String, String>, name: Seq<char>, namespace: Seq<char>, owner_references: Seq<OwnerReferenceView>, resource_version: Seq<char>, self_link: Seq<char>, uid: Seq<char>)
    ensures
        objectmeta_agrees_except(m, m.with_annotations(annotations), ObjectMetaField::Annotations),
        objectmeta_agrees_except(m, m.with_cluster_name(cluster_name), ObjectMetaField::ClusterName),
        objectmeta_agrees_except(m, m.with_creation_timestamp(creation_timestamp), ObjectMetaField::CreationTimestamp),
        objectmeta_agrees_except(m, m.with_deletion_grace_period_seconds(deletion_grace_period_seconds), ObjectMetaField::DeletionGracePeriodSeconds),
        objectmeta_agrees_except(m, m.with_deletion_timestamp(deletion_timestamp), ObjectMetaField::DeletionTimestamp),
        objectmeta_agrees_except(m, m.with_finalizers(finalizers), ObjectMetaField::Finalizers),
        objectmeta_agrees_except(m, m.with_generate_name(generate_name), ObjectMetaField::GenerateName),
        objectmeta_agrees_except(m, m.with_generation(generation), ObjectMetaField::Generation),
        objectmeta_agrees_except(m, m.with_initializers(initializers), ObjectMetaField::Initializers),
        objectmeta_agrees_except(m, m.with_labels(labels), ObjectMetaField::Labels),
        objectmeta_agrees_except(m, m.with_name(name), ObjectMetaField::Name),
        objectmeta_agrees_except(m, m.with_namespace(namespace), ObjectMetaField::Namespace),
        objectmeta_agrees_except(m, m.with_owner_references(owner_references), ObjectMetaField::OwnerReferences),
        objectmeta_agrees_except(m, m.with_resource_version(resource_version), ObjectMetaField::ResourceVersion),
        objectmeta_agrees_except(m, m.with_self_link(self_link), ObjectMetaField::SelfLink),
        objectmeta_agrees_except(m, m.with_uid(uid), ObjectMetaField::Uid),
{
}

/// Setting a field twice keeps only the second value.
pub proof fn law_objectmeta_last_set_wins(m: ObjectMetaView, annotations: Map<String, String>, annotations_again: Map<String, String>, cluster_name: Seq<char>, cluster_name_again: Seq<char>, creation_timestamp: Timestamp, creation_timestamp_again: Timestamp, deletion_grace_period_seconds: i64, deletion_grace_period_seconds_again: i64, deletion_timestamp: Timestamp, deletion_timestamp_again: Timestamp, finalizers: Seq<Seq<char>>, finalizers_again: Seq<Seq<char>>, generate_name: Seq<char>, generate_name_again: Seq<char>, generation: i64, generation_again: i64, initializers: Seq<InitializerView>, initializers_again: Seq<InitializerView>, labels: Map<String, String>, labels_again: Map<String, String>, name: Seq<char>, name_again: Seq<char>, namespace: Seq<char>, namespace_again: Seq<char>, owner_references: Seq<OwnerReferenceView>, owner_references_again: Seq<OwnerReferenceView>, resource_version: Seq<char>, resource_version_again: Seq<char>, self_link: Seq<char>, self_link_again: Seq<char>, uid: Seq<char>, uid_again: Seq<char>)
    ensures
        m.with_annotations(annotations).with_annotations(annotations_again) == m.with_annotations(annotations_again),
        m.with_cluster_name(cluster_name).with_cluster_name(cluster_name_again) == m.with_cluster_name(cluster_name_again),
        m.with_creation_timestamp(creation_timestamp).with_creation_timestamp(creation_timestamp_again) == m.with_creation_timestamp(creation_timestamp_again),
        m.with_deletion_grace_period_seconds(deletion_grace_period_seconds).with_deletion_grace_period_seconds(deletion_grace_period_seconds_again) == m.with_deletion_grace_period_seconds(deletion_grace_period_seconds_again),
        m.with_deletion_timestamp(deletion_timestamp).with_deletion_timestamp(deletion_timestamp_again) == m.with_deletion_timestamp(deletion_timestamp_again),
        m.with_finalizers(finalizers).with_finalizers(finalizers_again) == m.with_finalizers(finalizers_again),
        m.with_generate_name(generate_name).with_generate_name(generate_name_again) == m.with_generate_name(generate_name_again),
        m.with_generation(generation).with_generation(generation_again) == m.with_generation(generation_again),
        m.with_initializers(initializers).with_initializers(initializers_again) == m.with_initializers(initializers_again),
        m.with_labels(labels).with_labels(labels_again) == m.with_labels(labels_again),
        m.with_name(name).with_name(name_again) == m.with_name(name_again),
        m.with_namespace(namespace).with_namespace(namespace_again) == m.with_namespace(namespace_again),
        m.with_owner_references(owner_references).with_owner_references(owner_references_again) == m.with_owner_references(owner_references_again),
        m.with_resource_version(resource_version).with_resource_version(resource_version_again) == m.with_resource_version(resource_version_again),
        m.with_self_link(self_link).with_self_link(self_link_again) == m.with_self_link(self_link_again),
        m.with_uid(uid).with_uid(uid_again) == m.with_uid(uid_again),
{
}

/// The metadata that every Kubernetes object carries.
#[derive(Debug, PartialEq, Clone)]
pub struct ObjectMeta {
    annotations: Option<HashMap<String, String>>,
    cluster_name: Option<String>,
    creation_timestamp: Option<Timestamp>,
    deletion_grace_period_seconds: Option<i64>,
    deletion_timestamp: Option<Timestamp>,
    finalizers: Option<Vec<String>>,
    generate_name: Option<String>,
    generation: Option<i64>,
    initializers: Option<Vec<Initializer>>,
    labels: Option<HashMap<String, String>>,
    name: Option<String>,
    namespace: Option<String>,
    owner_references: Option<Vec<OwnerReference>>,
    resource_version: Option<String>,
    self_link: Option<String>,
    uid: Option<String>,
}

impl View for ObjectMeta {
    type V = ObjectMetaView;

    closed spec fn view(&self) -> ObjectMetaView {
        ObjectMetaView {
            annotations: match &self.annotations { Some(m) => Some(m@), None => None },
            cluster_name: opt_string_view(&self.cluster_name),
            creation_timestamp: self.creation_timestamp,
            deletion_grace_period_seconds: self.deletion_grace_period_seconds,
            deletion_timestamp: self.deletion_timestamp,
            finalizers: match &self.finalizers { Some(v) => Some(strings_view(v@)), None => None },
            generate_name: opt_string_view(&self.generate_name),
            generation: self.generation,
            initializers: match &self.initializers { Some(v) => Some(initializers_view(v@)), None => None },
            labels: match &self.labels { Some(m) => Some(m@), None => None },
            name: opt_string_view(&self.name),
            namespace: opt_string_view(&self.namespace),
            owner_references: match &self.owner_references { Some(v) => Some(owner_references_view(v@)), None => None },
            resource_version: opt_string_view(&self.resource_version),
            self_link: opt_string_view(&self.self_link),
            uid: opt_string_view(&self.uid),
        }
    }
}

impl ObjectMeta {
    /// Metadata with no field set.
    pub fn new() -> (r: ObjectMeta)
        ensures
            r@ == ObjectMetaView::empty(),
    {
        ObjectMeta {
            annotations: None,
            cluster_name: None,
            creation_timestamp: None,
            deletion_grace_period_seconds: None,
            deletion_timestamp: None,
            finalizers: None,
            generate_name: None,
            generation: None,
            initializers: None,
            labels: None,
            name: None,
            namespace: None,
            owner_references: None,
            resource_version: None,
            self_link: None,
            uid: None,
        }
    }

    pub fn cluster_name(&self) -> (r: Option<&str>)
        ensures
            opt_str_view(r) == self@.cluster_name,
    {
        opt_as_str(&self.cluster_name)
    }

    pub fn with_cluster_name(self, cluster_name: String) -> (r: Self)
        ensures
            r@ == self@.with_cluster_name(cluster_name@),
    {
        let mut r = self;
        r.cluster_name = Some(cluster_name);
        r
    }

    pub fn generate_name(&self) -> (r: Option<&str>)
        ensures
            opt_str_view(r) == self@.generate_name,
    {
        opt_as_str(&self.generate_name)
    }

    pub fn with_generate_name(self, generate_name: String) -> (r: Self)
        ensures
            r@ == self@.with_generate_name(generate_name@),
    {
        let mut r = self;
        r.generate_name = Some(generate_name);
        r
    }

    pub fn name(&self) -> (r: Option<&str>)
        ensures
            opt_str_view(r) == self@.name,
    {
        opt_as_str(&self.name)
    }

    pub fn with_name(self, name: String) -> (r: Self)
        ensures
            r@ == self@.with_name(name@),
    {
        let mut r = self;
        r.name = Some(name);
        r
    }

    pub fn namespace(&self) -> (r: Option<&str>)
        ensures
            opt_str_view(r) == self@.namespace,
    {
        opt_as_str(&self.namespace)
    }

    pub fn with_namespace(self, namespace: String) -> (r: Self)
        ensures
            r@ == self@.with_namespace(namespace@),
    {
        let mut r = self;
        r.namespace = Some(namespace);
        r
    }

    pub fn resource_version(&self) -> (r: Option<&str>)
        ensures
            opt_str_view(r) == self@.resource_version,
    {
        opt_as_str(&self.resource_version)
    }

    pub fn with_resource_version(self, resource_version: String) -> (r: Self)
        ensures
            r@ == self@.with_resource_version(resource_version@),
    {
        let mut r = self;
        r.resource_version = Some(resource_version);
        r
    }

    pub fn self_link(&self) -> (r: Option<&str>)
        ensures
            opt_str_view(r) == self@.self_link,
    {
        opt_as_str(&self.self_link)
    }

    pub fn with_self_link(self, self_link: String) -> (r: Self)
        ensures
            r@ == self@.with_self_link(self_link@),
    {
        let mut r = self;
        r.self_link = Some(self_link);
        r
    }

    pub fn uid(&self) -> (r: Option<&str>)
        ensures
            opt_str_view(r) == self@.uid,
    {
        opt_as_str(&self.uid)
    }

    pub fn with_uid(self, uid: String) -> (r: Self)
        ensures
            r@ == self@.with_uid(uid@),
    {
        let mut r = self;
        r.uid = Some(uid);
        r
    }

    pub fn annotations(&self) -> (r: Option<&HashMap<String, String>>)
        ensures
            match r {
                Some(x) => self@.annotations == Some(x@),
                None => self@.annotations is None,
            },
    {
        match &self.annotations {
            Some(x) => Some(x),
            None => None,
        }
    }

    pub fn with_annotations(self, annotations: HashMap<String, String>) -> (r: Self)
        ensures
            r@ == self@.with_annotations(annotations@),
    {
        let mut r = self;
        r.annotations = Some(annotations);
        r
    }

    pub fn creation_timestamp(&self) -> (r: Option<&Timestamp>)
        ensures
            match r {
                Some(x) => self@.creation_timestamp == Some(*x) && valid_timestamp(x@.0, x@.1),
                None => self@.creation_timestamp is None,
            },
    {
        match &self.creation_timestamp {
            Some(x) => {
                proof {
                    use_type_invariant(x);
                }
                Some(x)
            },
            None => None,
        }
    }

    pub fn with_creation_timestamp(self, creation_timestamp: Timestamp) -> (r: Self)
        ensures
            r@ == self@.with_creation_timestamp(creation_timestamp),
    {
        let mut r = self;
        r.creation_timestamp = Some(creation_timestamp);
        r
    }

    pub fn deletion_grace_period_seconds(&self) -> (r: Option<&i64>)
        ensures
            match r {
                Some(x) => self@.deletion_grace_period_seconds == Some(*x),
                None => self@.deletion_grace_period_seconds is None,
            },
    {
        match &self.deletion_grace_period_seconds {
            Some(x) => Some(x),
            None => None,
        }
    }

    pub fn with_deletion_grace_period_seconds(self, deletion_grace_period_seconds: i64) -> (r: Self)
        ensures
            r@ == self@.with_deletion_grace_period_seconds(deletion_grace_period_seconds),
    {
        let mut r = self;
        r.deletion_grace_period_seconds = Some(deletion_grace_period_seconds);
        r
    }

    pub fn deletion_timestamp(&self) -> (r: Option<&Timestamp>)
        ensures
            match r {
                Some(x) => self@.deletion_timestamp == Some(*x) && valid_timestamp(x@.0, x@.1),
                None => self@.deletion_timestamp is None,
            },
    {
        match &self.deletion_timestamp {
            Some(x) => {
                proof {
                    use_type_invariant(x);
                }
                Some(x)
            },
            None => None,
        }
    }

    pub fn with_deletion_timestamp(self, deletion_timestamp: Timestamp) -> (r: Self)
        ensures
            r@ == self@.with_deletion_timestamp(deletion_timestamp),
    {
        let mut r = self;
        r.deletion_timestamp = Some(deletion_timestamp);
        r
    }

    pub fn finalizers(&self) -> (r: Option<&Vec<String>>)
        ensures
            match r {
                Some(x) => self@.finalizers == Some(strings_view(x@)),
                None => self@.finalizers is None,
            },
    {
        match &self.finalizers {
            Some(x) => Some(x),
            None => None,
        }
    }

    pub fn with_finalizers(self, finalizers: Vec<String>) -> (r: Self)
        ensures
            r@ == self@.with_finalizers(strings_view(finalizers@)),
    {
        let mut r = self;
        r.finalizers = Some(finalizers);
        r
    }

    pub fn generation(&self) -> (r: Option<&i64>)
        ensures
            match r {
                Some(x) => self@.generation == Some(*x),
                None => self@.generation is None,
            },
    {
        match &self.generation {
            Some(x) => Some(x),
            None => None,
        }
    }

    pub fn with_generation(self, generation: i64) -> (r: Self)
        ensures
            r@ == self@.with_generation(generation),
    {
        let mut r = self;
        r.generation = Some(generation);
        r
    }

    pub fn initializers(&self) -> (r: Option<&Vec<Initializer>>)
        ensures
            match r {
                Some(x) => self@.initializers == Some(initializers_view(x@)),
                None => self@.initializers is None,
            },
    {
        match &self.initializers {
            Some(x) => Some(x),
            None => None,
        }
    }

    pub fn with_initializers(self, initializers: Vec<Initializer>) -> (r: Self)
        ensures
            r@ == self@.with_initializers(initializers_view(initializers@)),
    {
        let mut r = self;
        r.initializers = Some(initializers);
        r
    }

    pub fn labels(&self) -> (r: Option<&HashMap<String, String>>)
        ensures
            match r {
                Some(x) => self@.labels == Some(x@),
                None => self@.labels is None,
            },
    {
        match &self.labels {
            Some(x) => Some(x),
            None => None,
        }
    }

    pub fn with_labels(self, labels: HashMap<String, String>) -> (r: Self)
        ensures
            r@ == self@.with_labels(labels@),
    {
        let mut r = self;
        r.labels = Some(labels);
        r
    }

    pub fn owner_references(&self) -> (r: Option<&Vec<OwnerReference>>)
        ensures
            match r {
                Some(x) => self@.owner_references == Some(owner_references_view(x@)),
                None => self@.owner_references is None,
            },
    {
        match &self.owner_references {
            Some(x) => Some(x),
            None => None,
        }
    }

    pub fn with_owner_references(self, owner_references: Vec<OwnerReference>) -> (r: Self)
        ensures
            r@ == self@.with_owner_references(owner_references_view(owner_references@)),
    {
        let mut r = self;
        r.owner_references = Some(owner_references);
        r
    }

}

} // verus!
