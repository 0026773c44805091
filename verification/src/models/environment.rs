//! The environment resource: the typed records an environment listing
//! decodes to, how the list request for an organization is built, and how
//! the response payload decodes — member by member — into those records.

use vstd::prelude::*;

use crate::json::{json_view, json_views, obj_get, spec_lookup, JsonV, JsonValue};
use crate::models::{HttpMethod, RedoxApiResource, RequestParts};
use crate::util::{dec_i64, spec_dec_int};

verus! {

/// Which stage of the pipeline an environment serves.
#[derive(Debug, Clone, Copy, PartialEq, Eq, Structural)]
pub enum EnvironmentFlag {
    Production,
    Staging,
    Development,
}

/// The flag a payload string stands for, if any.
pub open spec fn spec_env_flag(s: Seq<char>) -> Option<EnvironmentFlag> {
    if s == "Production"@ {
        Some(EnvironmentFlag::Production)
    } else if s == "Staging"@ {
        Some(EnvironmentFlag::Staging)
    } else if s == "Development"@ {
        Some(EnvironmentFlag::Development)
    } else {
        None
    }
}

/// The organization an environment belongs to.
#[derive(Debug, Clone, Copy, PartialEq, Eq, Structural)]
pub struct OrgObj {
    pub id: i32,
}

/// One environment record as the API reports it.
#[derive(Debug, Clone)]
pub struct Environment {
    pub name: String,
    pub environment_flag: EnvironmentFlag,
    pub id: String,
    pub organization: OrgObj,
}

/// The mathematical value of an [`Environment`] record.
pub struct EnvironmentV {
    pub name: Seq<char>,
    pub environment_flag: EnvironmentFlag,
    pub id: Seq<char>,
    pub org_id: int,
}

impl View for Environment {
    type V = EnvironmentV;

    open spec fn view(&self) -> EnvironmentV {
        EnvironmentV {
            name: self.name@,
            environment_flag: self.environment_flag,
            id: self.id@,
            org_id: self.organization.id as int,
        }
    }
}

/// The values of a sequence of environments.
pub open spec fn env_views(es: Seq<Environment>) -> Seq<EnvironmentV> {
    Seq::new(es.len(), |i: int| es[i]@)
}

/// The list of environments of one organization.
#[derive(Debug, Clone)]
pub struct EnvironmentList {
    pub environments: Vec<Environment>,
}

impl View for EnvironmentList {
    type V = Seq<EnvironmentV>;

    open spec fn view(&self) -> Seq<EnvironmentV> {
        env_views(self.environments@)
    }
}

impl EnvironmentList {
    /// The first environment flagged Development, if any: the one the UI
    /// selects by default after loading a listing.
    pub fn development_environment(&self) -> (r: Option<&Environment>)
        ensures
            match r {
                Some(e) => exists|i: int|
                    0 <= i < self@.len() && self@[i].environment_flag == EnvironmentFlag::Development
                        && *e == self.environments@[i] && forall|j: int|
                        0 <= j < i ==> self@[j].environment_flag != EnvironmentFlag::Development,
                None => forall|i: int|
                    0 <= i < self@.len() ==> self@[i].environment_flag
                        != EnvironmentFlag::Development,
            },
    {
        let n = self.environments.len();
        let mut k: usize = 0;
        while k < n
            invariant
                n == self.environments@.len(),
                self@.len() == n,
                k <= n,
                forall|j: int|
                    0 <= j < k ==> self@[j].environment_flag != EnvironmentFlag::Development,
            decreases n - k,
        {
            proof {
                assert(self@[k as int] == self.environments@[k as int]@);
            }
            if matches!(self.environments[k].environment_flag, EnvironmentFlag::Development) {
                return Some(&self.environments[k]);
            }
            k = k + 1;
        }
        None
    }
}

/// One record of the listing payload: an object with `name`,
/// `environmentFlag`, `id`, and an `organization` object with an integer
/// `id` that fits in `i32`. Unknown members are ignored.
pub open spec fn spec_decode_env(v: JsonV) -> Option<EnvironmentV> {
    match v {
        JsonV::Obj(ms) => match spec_lookup(ms, "name"@) {
            Some(JsonV::Str(name)) => match spec_lookup(ms, "environmentFlag"@) {
                Some(JsonV::Str(flag_s)) => match spec_env_flag(flag_s) {
                    Some(flag) => match spec_lookup(ms, "id"@) {
                        Some(JsonV::Str(id)) => match spec_lookup(ms, "organization"@) {
                            Some(JsonV::Obj(org_ms)) => match spec_lookup(org_ms, "id"@) {
                                Some(JsonV::Int(oid)) => if i32::MIN <= oid <= i32::MAX {
                                    Some(
                                        EnvironmentV {
                                            name,
                                            environment_flag: flag,
                                            id,
                                            org_id: oid,
                                        },
                                    )
                                } else {
                                    None
                                },
                                _ => None,
                            },
                            _ => None,
                        },
                        _ => None,
                    },
                    None => None,
                },
                _ => None,
            },
            _ => None,
        },
        _ => None,
    }
}

/// All records of the listing, in order; fails if any record does.
pub open spec fn spec_decode_envs(elems: Seq<JsonV>) -> Option<Seq<EnvironmentV>>
    decreases elems.len(),
{
    if elems.len() == 0 {
        Some(Seq::empty())
    } else {
        match spec_decode_env(elems[0]) {
            Some(e) => match spec_decode_envs(elems.drop_first()) {
                Some(rest) => Some(seq![e] + rest),
                None => None,
            },
            None => None,
        }
    }
}

/// The whole listing payload: an object whose `environments` member is
/// the array of records.
pub open spec fn spec_decode_env_list(payload: JsonV) -> Option<Seq<EnvironmentV>> {
    match payload {
        JsonV::Obj(ms) => match spec_lookup(ms, "environments"@) {
            Some(JsonV::Arr(es)) => spec_decode_envs(es),
            _ => None,
        },
        _ => None,
    }
}

/// The flag a payload string stands for, executable.
fn env_flag_of(s: &String) -> (r: Option<EnvironmentFlag>)
    ensures
        r == spec_env_flag(s@),
{
    if *s == String::from_str("Production") {
        Some(EnvironmentFlag::Production)
    } else if *s == String::from_str("Staging") {
        Some(EnvironmentFlag::Staging)
    } else if *s == String::from_str("Development") {
        Some(EnvironmentFlag::Development)
    } else {
        None
    }
}

/// Decode one record of the listing.
fn decode_env(v: &JsonValue) -> (r: Option<Environment>)
    ensures
        match r {
            Some(e) => spec_decode_env(v@) == Some(e@),
            None => spec_decode_env(v@) is None,
        },
{
    let ms = match v {
        JsonValue::Obj(ms) => ms,
        _ => { return None },
    };
    let name = match obj_get(ms, &String::from_str("name")) {
        Some(JsonValue::Str(s)) => s.clone(),
        _ => { return None },
    };
    let flag = match obj_get(ms, &String::from_str("environmentFlag")) {
        Some(JsonValue::Str(s)) => match env_flag_of(s) {
            Some(f) => f,
            None => { return None },
        },
        _ => { return None },
    };
    let id = match obj_get(ms, &String::from_str("id")) {
        Some(JsonValue::Str(s)) => s.clone(),
        _ => { return None },
    };
    let org_id = match obj_get(ms, &String::from_str("organization")) {
        Some(JsonValue::Obj(org_ms)) => match obj_get(org_ms, &String::from_str("id")) {
            Some(JsonValue::Int(n)) => {
                if *n < i32::MIN as i64 || *n > i32::MAX as i64 {
                    return None;
                }
                *n as i32
            },
            _ => { return None },
        },
        _ => { return None },
    };
    Some(Environment { name, environment_flag: flag, id, organization: OrgObj { id: org_id } })
}

/// Decode every record of the listing array.
fn decode_envs(es: &Vec<JsonValue>) -> (r: Option<Vec<Environment>>)
    ensures
        match r {
            Some(out) => spec_decode_envs(json_views(es@)) == Some(env_views(out@)),
            None => spec_decode_envs(json_views(es@)) is None,
        },
{
    let ghost evs = json_views(es@);
    let n = es.len();
    let mut out: Vec<Environment> = Vec::new();
    proof {
        assert(evs.skip(0) =~= evs);
        assert(env_views(out@) =~= Seq::<EnvironmentV>::empty());
    }
    let mut k: usize = 0;
    while k < n
        invariant
            n == es@.len(),
            evs == json_views(es@),
            evs.len() == n,
            k <= n,
            match spec_decode_envs(evs.skip(k as int)) {
                Some(rest) => spec_decode_envs(evs) == Some(env_views(out@) + rest),
                None => spec_decode_envs(evs) is None,
            },
        decreases n - k,
    {
        proof {
            assert(evs.skip(k as int)[0] == evs[k as int]);
            assert(evs[k as int] == json_view(es@[k as int]));
            assert(evs.skip(k as int).drop_first() =~= evs.skip(k as int + 1));
        }
        match decode_env(&es[k]) {
            Some(e) => {
                let ghost out0 = env_views(out@);
                let ghost ev = e@;
                out.push(e);
                proof {
                    assert(env_views(out@) =~= out0 + seq![ev]);
                    if let Some(rest) = spec_decode_envs(evs.skip(k as int + 1)) {
                        assert((out0 + seq![ev]) + rest =~= out0 + (seq![ev] + rest));
                    }
                }
            },
            None => {
                return None;
            },
        }
        k = k + 1;
    }
    proof {
        assert(evs.skip(n as int) =~= Seq::<JsonV>::empty());
        assert(env_views(out@) + Seq::<EnvironmentV>::empty() =~= env_views(out@));
    }
    Some(out)
}

/// The environment resource, scoped to one organization.
#[derive(Debug, Clone, Copy, PartialEq, Eq, Structural)]
pub struct EnvironmentResource {
    org_id: i32,
}

impl EnvironmentResource {
    /// A descriptor for the environments of the given organization.
    pub fn new(org_id: i32) -> (r: Self)
        ensures
            r.spec_org_id() == org_id as int,
    {
        Self { org_id }
    }

    /// The organization this descriptor is scoped to.
    pub closed spec fn spec_org_id(self) -> int {
        self.org_id as int
    }

    /// The path of the environment list request for an organization.
    pub open spec fn spec_list_path_for(org_id: int) -> Seq<char> {
        "platform/v1/organizations/"@ + spec_dec_int(org_id) + "/environments"@
    }
}

impl RedoxApiResource for EnvironmentResource {
    type Item = Environment;

    type List = EnvironmentList;

    open spec fn spec_list_path(&self) -> Seq<char> {
        Self::spec_list_path_for(self.spec_org_id())
    }

    open spec fn spec_list_method(&self) -> HttpMethod {
        HttpMethod::Get
    }

    open spec fn spec_list_decodes(payload: JsonV) -> bool {
        spec_decode_env_list(payload) is Some
    }

    open spec fn spec_list_value(payload: JsonV, l: EnvironmentList) -> bool {
        spec_decode_env_list(payload) == Some(l@)
    }

    /// Build the list request: a GET of the organization's environments,
    /// with no body.
    fn build_list_request(&self) -> (r: RequestParts) {
        let path = String::from_str("platform/v1/organizations/").concat(
            dec_i64(self.org_id as i64).as_str(),
        ).concat("/environments");
        RequestParts { path, method: HttpMethod::Get, body: None }
    }

    /// Decode the listing payload into the typed list.
    fn decode_list(payload: &JsonValue) -> (r: Option<EnvironmentList>) {
        let ms = match payload {
            JsonValue::Obj(ms) => ms,
            _ => { return None },
        };
        let es = match obj_get(ms, &String::from_str("environments")) {
            Some(JsonValue::Arr(es)) => es,
            _ => { return None },
        };
        match decode_envs(es) {
            Some(envs) => Some(EnvironmentList { environments: envs }),
            None => None,
        }
    }
}

} // verus!
