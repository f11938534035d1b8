//! Incoming function calls and the lookup of the resource that answers them.

use vstd::prelude::*;

use crate::method::MockResourceMethod;
use crate::resource::{
    declared_view, parameters_view, rule_accepts, MatchRule, MockResource, ResourceModel, ResourceParameter,
};

verus! {

/// A named parameter of a call.
#[derive(Debug)]
pub struct WebserviceParameter {
    /// The parameter's name.
    pub name: String,
    /// The parameter's value.
    pub value: String,
}

impl View for WebserviceParameter {
    type V = (Seq<char>, Seq<char>);

    open spec fn view(&self) -> (Seq<char>, Seq<char>) {
        (self.name@, self.value@)
    }
}

/// The function part of a call: `<FUNCTION>.<METHOD>`, a revision, and the
/// parameters in the order they were sent.
#[derive(Debug)]
pub struct WebserviceFunction {
    /// The called name, such as `ARTIKEL.GET`.
    pub function_name: String,
    /// The revision the caller asks for.
    pub revision: u32,
    /// The parameters of the call.
    pub parameter: Vec<WebserviceParameter>,
}

impl WebserviceFunction {
    /// The parameters as pairs of name and value.
    pub open spec fn parameters_view(&self) -> Seq<(Seq<char>, Seq<char>)> {
        given_view(self.parameter@)
    }
}

/// The calling convention's metadata of a call; it takes no part in matching.
#[derive(Debug)]
pub struct WebservicePassInfo {
    /// The service pass of the session.
    pub service_pass: String,
    /// The application hash.
    pub app_hash: String,
    /// The time of the call.
    pub timestamp: String,
    /// The number of the request.
    pub request_id: usize,
    /// The execute mode.
    pub execute_mode: String,
}

/// A call of a remote function.
#[derive(Debug)]
pub struct WebserviceRequest {
    /// What is called.
    pub function: WebserviceFunction,
    /// How it is called.
    pub pass_info: WebservicePassInfo,
}

/// Whether `i` is the position of the one and only dot of `name`.
pub open spec fn is_sole_dot(name: Seq<char>, i: int) -> bool {
    &&& 0 <= i < name.len()
    &&& name[i] == '.'
    &&& forall|j: int| 0 <= j < name.len() && j != i ==> name[j] != '.'
}

/// The function name and method token of a called name with exactly one dot.
pub open spec fn split_call(name: Seq<char>) -> Option<(Seq<char>, Seq<char>)> {
    if exists|i: int| is_sole_dot(name, i) {
        let i = choose|i: int| is_sole_dot(name, i);
        Some((name.take(i), name.skip(i + 1)))
    } else {
        None
    }
}

/// The function and method that a called name designates, if it has the
/// shape `<FUNCTION>.<METHOD>` with a known method.
pub open spec fn call_target(name: Seq<char>) -> Option<(Seq<char>, MockResourceMethod)> {
    match split_call(name) {
        Some((f, t)) => match MockResourceMethod::from_token(t) {
            Some(m) => Some((f, m)),
            None => None,
        },
        None => None,
    }
}

/// Whether a declared entry occurs among the parameters `given` with a value
/// that its rule accepts.
pub open spec fn declared_present(
    entry: (Seq<char>, MatchRule),
    given: Seq<(Seq<char>, Seq<char>)>,
) -> bool {
    exists|j: int| 0 <= j < given.len() && given[j].0 == entry.0 && rule_accepts(entry.1, given[j].1)
}

/// Whether the parameters `given` of a call satisfy the declared ones:
/// without a declaration the call must have none; with one, every declared
/// name must occur among the given ones with a value its rule accepts.
pub open spec fn parameters_accept(
    declared: Option<Seq<(Seq<char>, MatchRule)>>,
    given: Seq<(Seq<char>, Seq<char>)>,
) -> bool {
    match declared {
        None => given.len() == 0,
        Some(d) => all_declared_present(d, given),
    }
}

/// Whether every declared entry of `d` occurs among `given` with an accepted value.
pub open spec fn all_declared_present(
    d: Seq<(Seq<char>, MatchRule)>,
    given: Seq<(Seq<char>, Seq<char>)>,
) -> bool {
    forall|i: int| 0 <= i < d.len() ==> declared_present(#[trigger] d[i], given)
}

/// The parameters of a call as pairs of name and value.
pub open spec fn given_view(ps: Seq<WebserviceParameter>) -> Seq<(Seq<char>, Seq<char>)> {
    ps.map_values(|p: WebserviceParameter| p@)
}

/// Whether resource `r` answers a call of `name` with parameters `given`.
pub open spec fn resource_answers(
    r: ResourceModel,
    name: Seq<char>,
    given: Seq<(Seq<char>, Seq<char>)>,
) -> bool {
    match call_target(name) {
        Some((f, m)) => r.function == f && r.method == m && parameters_accept(r.parameters, given),
        None => false,
    }
}

/// Whether the resource at `i` is the first in `rs` that answers the call.
pub open spec fn is_first_answer(
    rs: Seq<ResourceModel>,
    i: int,
    name: Seq<char>,
    given: Seq<(Seq<char>, Seq<char>)>,
) -> bool {
    &&& 0 <= i < rs.len()
    &&& resource_answers(rs[i], name, given)
    &&& forall|j: int| 0 <= j < i ==> !resource_answers(#[trigger] rs[j], name, given)
}

/// The models of a list of resources.
pub open spec fn resources_view(rs: Seq<MockResource>) -> Seq<ResourceModel> {
    rs.map_values(|r: MockResource| r@)
}

/// Splits a called name at its only dot; `None` where it has no dot or more
/// than one.
pub fn split_function_name(name: &str) -> (r: Option<(String, String)>)
    ensures
        match split_call(name@) {
            Some((f, t)) => r matches Some((a, b)) && a@ == f && b@ == t,
            None => r is None,
        },
{
    let n = name.unicode_len();
    let mut dot: Option<usize> = None;
    let mut i: usize = 0;
    while i < n
        invariant
            n == name@.len(),
            i <= n,
            match dot {
                None => forall|j: int| 0 <= j < i ==> name@[j] != '.',
                Some(k) => k < i && name@[k as int] == '.' && forall|j: int|
                    0 <= j < i && j != k ==> name@[j] != '.',
            },
        decreases n - i,
    {
        if name.get_char(i) == '.' {
            if let Some(k) = dot {
                assert(!exists|p: int| is_sole_dot(name@, p)) by {
                    assert forall|p: int| !is_sole_dot(name@, p) by {
                        if is_sole_dot(name@, p) {
                            if p == k as int {
                                assert(name@[i as int] == '.');
                            } else {
                                assert(name@[k as int] == '.');
                            }
                        }
                    }
                }
                return None;
            }
            dot = Some(i);
        }
        i += 1;
    }
    match dot {
        None => {
            assert(!exists|p: int| is_sole_dot(name@, p));
            None
        },
        Some(k) => {
            assert(is_sole_dot(name@, k as int));
            assert forall|p: int| is_sole_dot(name@, p) implies p == k as int by {
                if p != k as int {
                    assert(name@[k as int] == '.');
                }
            }
            let f = name.substring_char(0, k).to_owned();
            let t = name.substring_char(k + 1, n).to_owned();
            assert(f@ =~= name@.take(k as int));
            assert(t@ =~= name@.skip(k + 1));
            Some((f, t))
        },
    }
}

/// Whether one declared parameter is present among `given` with an accepted value.
fn declared_parameter_present(p: &ResourceParameter, given: &Vec<WebserviceParameter>) -> (r: bool)
    ensures
        r == declared_present(p@, given_view(given@)),
{
    let ghost gv = given_view(given@);
    let mut j: usize = 0;
    while j < given.len()
        invariant
            j <= given.len(),
            gv == given_view(given@),
            forall|k: int| 0 <= k < j ==> !(gv[k].0 == p@.0 && rule_accepts(p@.1, gv[k].1)),
        decreases given.len() - j,
    {
        if given[j].name == p.name && p.value.matches(given[j].value.as_str()) {
            assert(gv[j as int].0 == p@.0 && rule_accepts(p@.1, gv[j as int].1));
            return true;
        }
        assert(gv[j as int] == given@[j as int]@);
        j += 1;
    }
    false
}

/// Whether the parameters `given` satisfy the declared ones.
pub fn parameters_match(
    declared: &Option<Vec<ResourceParameter>>,
    given: &Vec<WebserviceParameter>,
) -> (r: bool)
    ensures
        r == parameters_accept(declared_view(*declared), given_view(given@)),
{
    let ghost gv = given_view(given@);
    assert(gv.len() == given@.len());
    match declared {
        None => given.len() == 0,
        Some(ps) => {
            let ghost d = parameters_view(ps@);
            assert(d.len() == ps@.len());
            let mut i: usize = 0;
            while i < ps.len()
                invariant
                    i <= ps.len(),
                    d == parameters_view(ps@),
                    declared_view(*declared) == Some(d),
                    d.len() == ps@.len(),
                    gv == given_view(given@),
                    forall|k: int| 0 <= k < i ==> declared_present(#[trigger] d[k], gv),
                decreases ps.len() - i,
            {
                let present = declared_parameter_present(&ps[i], given);
                assert(d[i as int] == ps@[i as int]@);
                if !present {
                    assert(!declared_present(d[i as int], gv));
                    assert(!all_declared_present(d, gv));
                    return false;
                }
                i += 1;
            }
            true
        },
    }
}

impl WebserviceRequest {
    /// The called name, such as `ARTIKEL.GET`.
    pub open spec fn call_name(&self) -> Seq<char> {
        self.function.function_name@
    }

    /// The parameters of the call as pairs of name and value.
    pub open spec fn call_parameters(&self) -> Seq<(Seq<char>, Seq<char>)> {
        self.function.parameters_view()
    }

    /// The first resource, in list order, that answers this call; `None` where
    /// none does, in particular where the called name is not of the shape
    /// `<FUNCTION>.<METHOD>` with a known method.
    pub fn lookup_resource(&self, resources: &[MockResource]) -> (r: Option<MockResource>)
        ensures
            r is None <==> forall|i: int|
                0 <= i < resources@.len() ==> !resource_answers(
                    #[trigger] resources@[i]@,
                    self.call_name(),
                    self.call_parameters(),
                ),
            r matches Some(found) ==> exists|i: int|
                is_first_answer(resources_view(resources@), i, self.call_name(), self.call_parameters())
                    && found@ == resources@[i]@,
    {
        let ghost name = self.call_name();
        let ghost given = self.call_parameters();
        let ghost rv = resources_view(resources@);
        let (function, token) = match split_function_name(self.function.function_name.as_str()) {
            Some(parts) => parts,
            None => {
                return None;
            },
        };
        let method = match MockResourceMethod::from_str(token.as_str()) {
            Ok(m) => m,
            Err(_) => {
                return None;
            },
        };
        assert(call_target(name) == Some((function@, method)));
        let mut i: usize = 0;
        while i < resources.len()
            invariant
                i <= resources@.len(),
                name == self.call_name(),
                given == self.call_parameters(),
                rv == resources_view(resources@),
                call_target(name) == Some((function@, method)),
                forall|j: int| 0 <= j < i ==> !resource_answers(#[trigger] rv[j], name, given),
            decreases resources.len() - i,
        {
            let resource = &resources[i];
            if resource.function == function && resource.method == method && parameters_match(
                &resource.parameters,
                &self.function.parameter,
            ) {
                assert(rv[i as int] == resource@);
                assert(is_first_answer(rv, i as int, name, given));
                return Some(resource.clone());
            }
            assert(rv[i as int] == resource@);
            i += 1;
        }
        assert forall|j: int| 0 <= j < resources@.len() implies !resource_answers(
            #[trigger] resources@[j]@,
            name,
            given,
        ) by {
            assert(rv[j] == resources@[j]@);
        }
        None
    }
}

/// A resource that declares no parameters answers a call of its own function
/// and method exactly when the call carries no parameter.
pub proof fn lemma_undeclared_answers_only_empty(
    r: ResourceModel,
    name: Seq<char>,
    given: Seq<(Seq<char>, Seq<char>)>,
)
    requires
        r.parameters is None,
        call_target(name) == Some((r.function, r.method)),
    ensures
        resource_answers(r, name, given) <==> given.len() == 0,
{
}

/// A resource that declares parameters answers a call of its own function and
/// method exactly when each declared name occurs in the call with a value that
/// equals the literal or in which the pattern finds a match; parameters that
/// the call adds never keep it from answering.
pub proof fn lemma_declared_answers_when_all_present(
    r: ResourceModel,
    name: Seq<char>,
    given: Seq<(Seq<char>, Seq<char>)>,
    extra: Seq<(Seq<char>, Seq<char>)>,
)
    requires
        r.parameters is Some,
        call_target(name) == Some((r.function, r.method)),
    ensures
        resource_answers(r, name, given) <==> forall|i: int|
            0 <= i < r.parameters->0.len() ==> declared_present(
                #[trigger] r.parameters->0[i],
                given,
            ),
        resource_answers(r, name, given) ==> resource_answers(r, name, given + extra),
        resource_answers(r, name, given) ==> resource_answers(r, name, extra + given),
{
    let d = r.parameters->0;
    assert(resource_answers(r, name, given) == all_declared_present(d, given));
    if resource_answers(r, name, given) {
        assert forall|i: int| 0 <= i < d.len() implies declared_present(
            #[trigger] d[i],
            given + extra,
        ) by {
            assert(declared_present(d[i], given));
            let j = choose|j: int|
                0 <= j < given.len() && given[j].0 == d[i].0 && rule_accepts(d[i].1, given[j].1);
            assert((given + extra)[j] == given[j]);
        }
        assert forall|i: int| 0 <= i < d.len() implies declared_present(
            #[trigger] d[i],
            extra + given,
        ) by {
            assert(declared_present(d[i], given));
            let j = choose|j: int|
                0 <= j < given.len() && given[j].0 == d[i].0 && rule_accepts(d[i].1, given[j].1);
            assert((extra + given)[extra.len() + j] == given[j]);
        }
    }
}

/// A called name without exactly one dot is answered by no resource, whatever
/// the catalog holds.
pub proof fn lemma_malformed_name_answers_nothing(
    rs: Seq<ResourceModel>,
    name: Seq<char>,
    given: Seq<(Seq<char>, Seq<char>)>,
)
    requires
        split_call(name) is None,
    ensures
        forall|i: int| 0 <= i < rs.len() ==> !resource_answers(#[trigger] rs[i], name, given),
{
}

} // verus!
