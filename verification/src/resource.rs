//! The custom resource and the values it is made of.
//!
//! Every type here holds plain values only. Types that carry text have a view
//! in which each `String` is replaced by its sequence of characters; contracts
//! throughout the crate are stated over those views.

use vstd::prelude::*;

verus! {

/// Name of the one object this controller manages.
pub const KUBESECRET: &'static str = "varsecret";

/// Namespace in which the managed object lives.
pub const NAMESPACE: &'static str = "default";

/// A point in time, UTC: whole seconds since the Unix epoch and the
/// nanoseconds that have passed since that second began.
///
/// The nanosecond part of an ordinary instant is below one thousand million;
/// the range above it, up to two thousand million, stands for a leap second.
#[derive(Clone, Copy, Debug, PartialEq, Eq, Structural)]
pub struct MicroTime {
    pub secs: i64,
    pub nanos: u32,
}

impl MicroTime {
    /// The nanosecond part is in the range a calendar time can have.
    pub open spec fn well_formed(self) -> bool {
        self.nanos < 2_000_000_000
    }

    /// Tells whether the nanosecond part is in range.
    pub fn is_well_formed(&self) -> (ok: bool)
        ensures
            ok == self.well_formed(),
    {
        self.nanos < 2_000_000_000
    }
}

/// Desired state recorded on a `TestResource`.
#[derive(Clone, Copy, Debug, PartialEq, Eq, Structural)]
pub struct TestResourceSpec {
    /// Counter, meant never to decrease.
    pub nonce: i64,
    /// When the spec was last written.
    pub updated_at: Option<MicroTime>,
}

impl Default for TestResourceSpec {
    /// A spec that was never written: counter zero, no timestamp.
    fn default() -> (spec: Self)
        ensures
            spec == (TestResourceSpec { nonce: 0, updated_at: None }),
    {
        TestResourceSpec { nonce: 0, updated_at: None }
    }
}

/// The part of an object's metadata that identifies it.
#[derive(Debug)]
pub struct ObjectMeta {
    pub name: Option<String>,
    pub namespace: Option<String>,
}

/// Mathematical value of an `ObjectMeta`.
pub struct ObjectMetaView {
    pub name: Option<Seq<char>>,
    pub namespace: Option<Seq<char>>,
}

/// The characters of an optional string.
pub open spec fn text_of(s: Option<String>) -> Option<Seq<char>> {
    match s {
        Some(t) => Some(t@),
        None => None,
    }
}

impl View for ObjectMeta {
    type V = ObjectMetaView;

    open spec fn view(&self) -> ObjectMetaView {
        ObjectMetaView { name: text_of(self.name), namespace: text_of(self.namespace) }
    }
}

impl Default for ObjectMeta {
    /// Metadata that names nothing.
    fn default() -> (meta: Self)
        ensures
            meta@ == (ObjectMetaView { name: None, namespace: None }),
    {
        ObjectMeta { name: None, namespace: None }
    }
}

/// The unit of reconciliation: identity and desired state.
#[derive(Debug)]
pub struct TestResource {
    pub metadata: ObjectMeta,
    pub spec: TestResourceSpec,
}

/// Mathematical value of a `TestResource`.
pub struct TestResourceView {
    pub metadata: ObjectMetaView,
    pub spec: TestResourceSpec,
}

impl View for TestResource {
    type V = TestResourceView;

    open spec fn view(&self) -> TestResourceView {
        TestResourceView { metadata: self.metadata@, spec: self.spec }
    }
}

/// The resource that `test_resource` builds: named, without a namespace,
/// carrying the given counter and timestamp.
pub open spec fn new_resource(name: Seq<char>, nonce: i64, at: MicroTime) -> TestResourceView {
    TestResourceView {
        metadata: ObjectMetaView { name: Some(name), namespace: None },
        spec: TestResourceSpec { nonce, updated_at: Some(at) },
    }
}

/// Builds a fresh resource object with the given name, counter and timestamp.
/// All other metadata is left unset.
pub fn test_resource(name: &str, nonce: &i64, start_timestamp: MicroTime) -> (resource: TestResource)
    ensures
        resource@ == new_resource(name@, *nonce, start_timestamp),
{
    let mut metadata = ObjectMeta::default();
    metadata.name = Some(name.to_owned());
    TestResource {
        metadata,
        spec: TestResourceSpec { nonce: *nonce, updated_at: Some(start_timestamp) },
    }
}

} // verus!
