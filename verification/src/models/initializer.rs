use vstd::prelude::*;

verus! {

/// What an `Initializer` holds, as mathematical values.
pub struct InitializerView {
    pub name: Option<Seq<char>>,
}

impl InitializerView {
    /// The initializer with no field set.
    pub open spec fn empty() -> InitializerView {
        InitializerView { name: None }
    }

    /// The initializer with its name set to `name`.
    pub open spec fn with_name(self, name: Seq<char>) -> InitializerView {
        InitializerView { name: Some(name) }
    }
}

/// The name set by `with_name` is the one `name` gives back.
pub proof fn law_initializer_set_then_get(m: InitializerView, name: Seq<char>)
    ensures
        m.with_name(name).name == Some(name),
{
}

/// Setting the name twice keeps only the second one.
pub proof fn law_initializer_last_set_wins(m: InitializerView, name: Seq<char>, name_again: Seq<char>)
    ensures
        m.with_name(name).with_name(name_again) == m.with_name(name_again),
{
}

/// An initializer of a Kubernetes object, identified by its name.
#[derive(Debug, PartialEq, Clone)]
pub struct Initializer {
    name: Option<String>,
}

impl View for Initializer {
    type V = InitializerView;

    closed spec fn view(&self) -> InitializerView {
        InitializerView { name: opt_string_view(&self.name) }
    }
}

/// The view of an optional owned string.
pub open spec fn opt_string_view(s: &Option<String>) -> Option<Seq<char>> {
    match s {
        Some(t) => Some(t@),
        None => None,
    }
}

/// The view of an optional borrowed string.
pub open spec fn opt_str_view(s: Option<&str>) -> Option<Seq<char>> {
    match s {
        Some(t) => Some(t@),
        None => None,
    }
}

/// Borrows the contents of an optional string.
pub fn opt_as_str(s: &Option<String>) -> (r: Option<&str>)
    ensures
        opt_str_view(r) == opt_string_view(s),
{
    match s {
        Some(t) => Some(t.as_str()),
        None => None,
    }
}

impl Initializer {
    /// An initializer with no name.
    pub fn new() -> (r: Initializer)
        ensures
            r@ == InitializerView::empty(),
    {
        Initializer { name: None }
    }

    /// The name, if one was set.
    pub fn name(&self) -> (r: Option<&str>)
        ensures
            opt_str_view(r) == self@.name,
    {
        opt_as_str(&self.name)
    }

    /// The same initializer with its name set to `name`.
    pub fn with_name(self, name: String) -> (r: Self)
        ensures
            r@ == self@.with_name(name@),
    {
        let mut r = self;
        r.name = Some(name);
        r
    }
}

} // verus!
