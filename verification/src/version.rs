//! Version descriptors for the hosted program and for the compiled-in native
//! implementation, and the compatibility predicate between them.
//!
//! Compatibility is not equality: the native implementation declares a range
//! of program specification versions it can stand in for, and additionally
//! the specification names and the transaction-format versions must match.

use vstd::prelude::*;

verus! {

/// One method-dispatch API the program supports, as a name and a version.
#[derive(Debug)]
pub struct ApiVersion {
    /// Name of the API.
    pub name: String,
    /// Version of the API.
    pub version: u32,
}

/// Mathematical model of an [`ApiVersion`].
pub struct ApiVersionView {
    /// Name of the API.
    pub name: Seq<char>,
    /// Version of the API.
    pub version: u32,
}

impl View for ApiVersion {
    type V = ApiVersionView;

    open spec fn view(&self) -> ApiVersionView {
        ApiVersionView { name: self.name@, version: self.version }
    }
}

/// The identity and compatibility descriptor a program reports about itself.
#[derive(Debug)]
pub struct RuntimeVersion {
    /// Name of the specification the program implements.
    pub spec_name: String,
    /// Version of the specification the program implements.
    pub spec_version: u32,
    /// Version of this implementation of the specification. Irrelevant for
    /// compatibility; a pure implementation detail.
    pub impl_version: u32,
    /// The method-dispatch APIs the program supports.
    pub apis: Vec<ApiVersion>,
    /// Version of the transaction format the program understands.
    pub transaction_version: u32,
}

/// Mathematical model of a [`RuntimeVersion`].
pub struct RuntimeVersionView {
    /// Name of the specification the program implements.
    pub spec_name: Seq<char>,
    /// Version of the specification the program implements.
    pub spec_version: u32,
    /// Version of this implementation of the specification.
    pub impl_version: u32,
    /// The method-dispatch APIs the program supports.
    pub apis: Seq<ApiVersionView>,
    /// Version of the transaction format the program understands.
    pub transaction_version: u32,
}

impl View for RuntimeVersion {
    type V = RuntimeVersionView;

    open spec fn view(&self) -> RuntimeVersionView {
        RuntimeVersionView {
            spec_name: self.spec_name@,
            spec_version: self.spec_version,
            impl_version: self.impl_version,
            apis: self.apis@.map_values(|a: ApiVersion| a@),
            transaction_version: self.transaction_version,
        }
    }
}

/// The version descriptor of the compiled-in native implementation: its own
/// [`RuntimeVersion`] plus the oldest program specification version it can
/// still stand in for.
#[derive(Debug)]
pub struct NativeVersion {
    /// The version the native implementation reports about itself.
    pub runtime_version: RuntimeVersion,
    /// The oldest on-chain specification version this native implementation
    /// declares support for. Together with its own `spec_version` this forms
    /// the supported range.
    pub min_spec_version: u32,
}

/// Mathematical model of a [`NativeVersion`].
pub struct NativeVersionView {
    /// The version the native implementation reports about itself.
    pub runtime_version: RuntimeVersionView,
    /// The oldest on-chain specification version supported.
    pub min_spec_version: u32,
}

impl View for NativeVersion {
    type V = NativeVersionView;

    open spec fn view(&self) -> NativeVersionView {
        NativeVersionView {
            runtime_version: self.runtime_version@,
            min_spec_version: self.min_spec_version,
        }
    }
}

/// Model of an optional declared version, as read from a program image.
pub open spec fn opt_version_view(v: Option<RuntimeVersion>) -> Option<RuntimeVersionView> {
    match v {
        Some(rv) => Some(rv@),
        None => None,
    }
}

/// Whether a program whose declared version is `onchain` may be served by the
/// native implementation described by `native`: equal specification names,
/// the on-chain specification version within the range the implementation
/// declares support for, and matching transaction-format versions.
pub open spec fn spec_can_call_with(onchain: RuntimeVersionView, native: NativeVersionView) -> bool {
    &&& onchain.spec_name == native.runtime_version.spec_name
    &&& native.min_spec_version <= onchain.spec_version
    &&& onchain.spec_version <= native.runtime_version.spec_version
    &&& onchain.transaction_version == native.runtime_version.transaction_version
}

impl Clone for ApiVersion {
    fn clone(&self) -> (r: Self)
        ensures
            r@ == self@,
    {
        ApiVersion { name: self.name.clone(), version: self.version }
    }
}

impl Clone for RuntimeVersion {
    fn clone(&self) -> (r: Self)
        ensures
            r@ == self@,
    {
        let apis = self.apis.clone();
        proof {
            assert forall|i: int| 0 <= i < self.apis@.len() implies apis@[i]@ == self.apis@[i]@ by {
                assert(cloned::<ApiVersion>(self.apis@[i], apis@[i]));
            }
            assert(apis@.map_values(|a: ApiVersion| a@) =~= self.apis@.map_values(
                |a: ApiVersion| a@,
            ));
        }
        RuntimeVersion {
            spec_name: self.spec_name.clone(),
            spec_version: self.spec_version,
            impl_version: self.impl_version,
            apis,
            transaction_version: self.transaction_version,
        }
    }
}

impl Clone for NativeVersion {
    fn clone(&self) -> (r: Self)
        ensures
            r@ == self@,
    {
        NativeVersion {
            runtime_version: self.runtime_version.clone(),
            min_spec_version: self.min_spec_version,
        }
    }
}

impl RuntimeVersion {
    /// Decides whether this on-chain version may be served by the given
    /// native implementation. The dispatcher consumes only this boolean.
    pub fn can_call_with(&self, native: &NativeVersion) -> (r: bool)
        ensures
            r == spec_can_call_with(self@, native@),
    {
        self.spec_name == native.runtime_version.spec_name
            && self.spec_version >= native.min_spec_version
            && self.spec_version <= native.runtime_version.spec_version
            && self.transaction_version == native.runtime_version.transaction_version
    }
}

} // verus!
