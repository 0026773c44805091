//! Request shapes and the resource abstraction. Each kind of API resource
//! knows how to build its own request and how to decode the payload the
//! API returns for it; the dispatcher stays generic over this trait.

use vstd::prelude::*;

pub mod auth;
pub mod environment;

use crate::json::{JsonV, JsonValue};

verus! {

/// The HTTP method of a built request.
#[derive(Debug, Clone, Copy, PartialEq, Eq, Structural)]
pub enum HttpMethod {
    Get,
    Post,
}

/// A declarative request shape: path relative to the API host, method, and
/// an optional raw body.
#[derive(Debug, Clone)]
pub struct RequestParts {
    pub path: String,
    pub method: HttpMethod,
    pub body: Option<Vec<u8>>,
}

/// The kind of request issued against a resource. Only list requests are
/// implemented today; the enum is the extension point for item requests.
#[derive(Debug, Clone, Copy, PartialEq, Eq, Structural)]
pub enum RequestType {
    List,
}

/// The resources an environment exposes, as shown in the resource picker.
#[derive(Debug, Clone, Copy, PartialEq, Eq, Structural)]
pub enum EnvironmentResources {
    Alerts,
    AuthCredential,
    ConfigModifiers,
    Destination,
    Filters,
    Logs,
    Sources,
    TranslationSets,
}

impl EnvironmentResources {
    /// The label under which this resource is listed.
    pub fn label(&self) -> (r: &'static str)
        ensures
            r@ == self.spec_label(),
    {
        match self {
            EnvironmentResources::Alerts => "Alerts",
            EnvironmentResources::AuthCredential => "Auth credential",
            EnvironmentResources::ConfigModifiers => "Config modifiers",
            EnvironmentResources::Destination => "Destination",
            EnvironmentResources::Filters => "Filters",
            EnvironmentResources::Logs => "Logs",
            EnvironmentResources::Sources => "Sources",
            EnvironmentResources::TranslationSets => "Translation sets",
        }
    }

    /// The label under which this resource is listed.
    pub open spec fn spec_label(self) -> Seq<char> {
        match self {
            EnvironmentResources::Alerts => "Alerts"@,
            EnvironmentResources::AuthCredential => "Auth credential"@,
            EnvironmentResources::ConfigModifiers => "Config modifiers"@,
            EnvironmentResources::Destination => "Destination"@,
            EnvironmentResources::Filters => "Filters"@,
            EnvironmentResources::Logs => "Logs"@,
            EnvironmentResources::Sources => "Sources"@,
            EnvironmentResources::TranslationSets => "Translation sets"@,
        }
    }

    /// Every resource kind, in display order.
    pub fn all() -> (r: Vec<EnvironmentResources>)
        ensures
            r@ == seq![
                EnvironmentResources::Alerts,
                EnvironmentResources::AuthCredential,
                EnvironmentResources::ConfigModifiers,
                EnvironmentResources::Destination,
                EnvironmentResources::Filters,
                EnvironmentResources::Logs,
                EnvironmentResources::Sources,
                EnvironmentResources::TranslationSets,
            ],
    {
        let mut v: Vec<EnvironmentResources> = Vec::new();
        v.push(EnvironmentResources::Alerts);
        v.push(EnvironmentResources::AuthCredential);
        v.push(EnvironmentResources::ConfigModifiers);
        v.push(EnvironmentResources::Destination);
        v.push(EnvironmentResources::Filters);
        v.push(EnvironmentResources::Logs);
        v.push(EnvironmentResources::Sources);
        v.push(EnvironmentResources::TranslationSets);
        proof {
            assert(v@ =~= seq![
                EnvironmentResources::Alerts,
                EnvironmentResources::AuthCredential,
                EnvironmentResources::ConfigModifiers,
                EnvironmentResources::Destination,
                EnvironmentResources::Filters,
                EnvironmentResources::Logs,
                EnvironmentResources::Sources,
                EnvironmentResources::TranslationSets,
            ]);
        }
        v
    }
}

/// One kind of API resource: how its list request is built and how the
/// payload of a list response decodes into its typed list. The dispatcher
/// is generic over this trait; new resource kinds add an implementation
/// without touching the dispatcher.
pub trait RedoxApiResource: Sized {
    /// The type one item of this resource decodes to.
    type Item;

    /// The type a listing of this resource decodes to.
    type List;

    /// The path of this resource's list request.
    spec fn spec_list_path(&self) -> Seq<char>;

    /// The method of this resource's list request.
    spec fn spec_list_method(&self) -> HttpMethod;

    /// Whether `payload` decodes into this resource's list type.
    spec fn spec_list_decodes(payload: JsonV) -> bool;

    /// What the decoded list is: relates `payload` to the value decoded
    /// from it.
    spec fn spec_list_value(payload: JsonV, l: Self::List) -> bool;

    /// Build the list request for this resource.
    fn build_list_request(&self) -> (r: RequestParts)
        ensures
            r.path@ == self.spec_list_path(),
            r.method == self.spec_list_method(),
            r.body is None,
    ;

    /// Decode a list response payload; succeeds exactly on payloads of
    /// the declared list shape.
    fn decode_list(payload: &JsonValue) -> (r: Option<Self::List>)
        ensures
            r is Some <==> Self::spec_list_decodes(payload@),
            match r {
                Some(l) => Self::spec_list_value(payload@, l),
                None => true,
            },
    ;
}

} // verus!
