use vstd::prelude::*;
use crate::models::initializer::{opt_as_str, opt_str_view, opt_string_view};

verus! {

/// What an `OwnerReference` holds, as mathematical values.
pub struct OwnerReferenceView {
    pub api_version: Option<Seq<char>>,
    pub block_owner_deletion: Option<bool>,
    pub controller: Option<bool>,
    pub kind: Option<Seq<char>>,
    pub name: Option<Seq<char>>,
    pub uid: Option<Seq<char>>,
}

impl OwnerReferenceView {
    /// The reference with no field set.
    pub open spec fn empty() -> OwnerReferenceView {
        OwnerReferenceView {
            api_version: None,
            block_owner_deletion: None,
            controller: None,
            kind: None,
            name: None,
            uid: None,
        }
    }

    pub open spec fn with_api_version(self, v: Seq<char>) -> OwnerReferenceView {
        OwnerReferenceView { api_version: Some(v), ..self }
    }

    pub open spec fn with_block_owner_deletion(self, v: bool) -> OwnerReferenceView {
        OwnerReferenceView { block_owner_deletion: Some(v), ..self }
    }

    pub open spec fn with_controller(self, v: bool) -> OwnerReferenceView {
        OwnerReferenceView { controller: Some(v), ..self }
    }

    pub open spec fn with_kind(self, v: Seq<char>) -> OwnerReferenceView {
        OwnerReferenceView { kind: Some(v), ..self }
    }

    pub open spec fn with_name(self, v: Seq<char>) -> OwnerReferenceView {
        OwnerReferenceView { name: Some(v), ..self }
    }

    pub open spec fn with_uid(self, v: Seq<char>) -> OwnerReferenceView {
        OwnerReferenceView { uid: Some(v), ..self }
    }
}

/// The fields of `OwnerReference`, to say which one a setter touches.
#[derive(PartialEq, Eq, Structural)]
pub enum OwnerReferenceField {
    ApiVersion,
    BlockOwnerDeletion,
    Controller,
    Kind,
    Name,
    Uid,
}

/// True when `a` and `b` hold the same value in every field but `f`.
pub open spec fn ownerreference_agrees_except(a: OwnerReferenceView, b: OwnerReferenceView, f: OwnerReferenceField) -> bool {
    &&& f != OwnerReferenceField::ApiVersion ==> a.api_version == b.api_version
    &&& f != OwnerReferenceField::BlockOwnerDeletion ==> a.block_owner_deletion == b.block_owner_deletion
    &&& f != OwnerReferenceField::Controller ==> a.controller == b.controller
    &&& f != OwnerReferenceField::Kind ==> a.kind == b.kind
    &&& f != OwnerReferenceField::Name ==> a.name == b.name
    &&& f != OwnerReferenceField::Uid ==> a.uid == b.uid
}

/// Each setter is read back by its getter: after `with_x(v)`, `x()` gives `v`.
pub proof fn law_ownerreference_set_then_get(m: OwnerReferenceView, api_version: Seq<char>, block_owner_deletion: bool, controller: bool, kind: Seq<char>, name: Seq<char>, uid: Seq<char>)
    ensures
        m.with_api_version(api_version).api_version == Some(api_version),
        m.with_block_owner_deletion(block_owner_deletion).block_owner_deletion == Some(block_owner_deletion),
        m.with_controller(controller).controller == Some(controller),
        m.with_kind(kind).kind == Some(kind),
        m.with_name(name).name == Some(name),
        m.with_uid(uid).uid == Some(uid),
{
}

/// Each setter changes its own field and no other.
pub proof fn law_ownerreference_set_keeps_other_fields(m: OwnerReferenceView, api_version: Seq<char>, block_owner_deletion: bool, controller: bool, kind: Seq<char>, name: Seq<char>, uid: Seq<char>)
    ensures
        ownerreference_agrees_except(m, m.with_api_version(api_version), OwnerReferenceField::ApiVersion),
        ownerreference_agrees_except(m, m.with_block_owner_deletion(block_owner_deletion), OwnerReferenceField::BlockOwnerDeletion),
        ownerreference_agrees_except(m, m.with_controller(controller), OwnerReferenceField::Controller),
        ownerreference_agrees_except(m, m.with_kind(kind), OwnerReferenceField::Kind),
        ownerreference_agrees_except(m, m.with_name(name), OwnerReferenceField::Name),
        ownerreference_agrees_except(m, m.with_uid(uid), OwnerReferenceField::Uid),
{
}

/// Setting a field twice keeps only the second value.
pub proof fn law_ownerreference_last_set_wins(m: OwnerReferenceView, api_version: Seq<char>, api_version_again: Seq<char>, block_owner_deletion: bool, block_owner_deletion_again: bool, controller: bool, controller_again: bool, kind: Seq<char>, kind_again: Seq<char>, name: Seq<char>, name_again: Seq<char>, uid: Seq<char>, uid_again: Seq<char>)
    ensures
        m.with_api_version(api_version).with_api_version(api_version_again) == m.with_api_version(api_version_again),
        m.with_block_owner_deletion(block_owner_deletion).with_block_owner_deletion(block_owner_deletion_again) == m.with_block_owner_deletion(block_owner_deletion_again),
        m.with_controller(controller).with_controller(controller_again) == m.with_controller(controller_again),
        m.with_kind(kind).with_kind(kind_again) == m.with_kind(kind_again),
        m.with_name(name).with_name(name_again) == m.with_name(name_again),
        m.with_uid(uid).with_uid(uid_again) == m.with_uid(uid_again),
{
}

/// A reference from a Kubernetes object to the object that owns it.
#[derive(Debug, PartialEq, Clone)]
pub struct OwnerReference {
    api_version: Option<String>,
    block_owner_deletion: Option<bool>,
    controller: Option<bool>,
    kind: Option<String>,
    name: Option<String>,
    uid: Option<String>,
}

impl View for OwnerReference {
    type V = OwnerReferenceView;

    closed spec fn view(&self) -> OwnerReferenceView {
        OwnerReferenceView {
            api_version: opt_string_view(&self.api_version),
            block_owner_deletion: self.block_owner_deletion,
            controller: self.controller,
            kind: opt_string_view(&self.kind),
            name: opt_string_view(&self.name),
            uid: opt_string_view(&self.uid),
        }
    }
}

impl OwnerReference {
    /// A reference with no field set.
    pub fn new() -> (r: OwnerReference)
        ensures
            r@ == OwnerReferenceView::empty(),
    {
        OwnerReference {
            api_version: None,
            block_owner_deletion: None,
            controller: None,
            kind: None,
            name: None,
            uid: None,
        }
    }

    pub fn block_owner_deletion(&self) -> (r: Option<bool>)
        ensures
            r == self@.block_owner_deletion,
    {
        self.block_owner_deletion
    }

    pub fn with_block_owner_deletion(self, block_owner_deletion: bool) -> (r: Self)
        ensures
            r@ == self@.with_block_owner_deletion(block_owner_deletion),
    {
        let mut r = self;
        r.block_owner_deletion = Some(block_owner_deletion);
        r
    }

    pub fn controller(&self) -> (r: Option<bool>)
        ensures
            r == self@.controller,
    {
        self.controller
    }

    pub fn with_controller(self, controller: bool) -> (r: Self)
        ensures
            r@ == self@.with_controller(controller),
    {
        let mut r = self;
        r.controller = Some(controller);
        r
    }

    pub fn api_version(&self) -> (r: Option<&str>)
        ensures
            opt_str_view(r) == self@.api_version,
    {
        opt_as_str(&self.api_version)
    }

    pub fn with_api_version(self, api_version: String) -> (r: Self)
        ensures
            r@ == self@.with_api_version(api_version@),
    {
        let mut r = self;
        r.api_version = Some(api_version);
        r
    }

    pub fn kind(&self) -> (r: Option<&str>)
        ensures
            opt_str_view(r) == self@.kind,
    {
        opt_as_str(&self.kind)
    }

    pub fn with_kind(self, kind: String) -> (r: Self)
        ensures
            r@ == self@.with_kind(kind@),
    {
        let mut r = self;
        r.kind = Some(kind);
        r
    }

    pub fn name(&self) -> (r: Option<&str>)
        ensures
            opt_str_view(r) == self@.name,
    {
        opt_as_str(&self.name)
    }

    pub fn with_name(self, name: String) -> (r: Self)
        ensures
            r@ == self@.with_name(name@),
    {
        let mut r = self;
        r.name = Some(name);
        r
    }

    pub fn uid(&self) -> (r: Option<&str>)
        ensures
            opt_str_view(r) == self@.uid,
    {
        opt_as_str(&self.uid)
    }

    pub fn with_uid(self, uid: String) -> (r: Self)
        ensures
            r@ == self@.with_uid(uid@),
    {
        let mut r = self;
        r.uid = Some(uid);
        r
    }
}

} // verus!
