//! Mock resources: what a configured canned answer is, and when it applies.

use vstd::prelude::*;

use crate::method::MockResourceMethod;
use crate::pattern::{regex_finds, DeserializedRegex};

verus! {

/// Where a resource's answer comes from: a file, an inline string, or nothing.
#[derive(Debug)]
pub enum FileOrString {
    /// The answer is the content of the file at this path.
    File {
        /// The path of the file.
        file: String,
    },
    /// The answer is this string.
    String {
        /// The text of the answer.
        value: String,
    },
    /// There is no answer body.
    Empty,
}

impl FileOrString {
    /// The text of the answer, where `file_contents` stands for the content of
    /// the file of a `File` source: for `String` the inline text, for `Empty`
    /// the empty string.
    pub fn as_string(&self, file_contents: &str) -> (r: String)
        ensures
            r@ == match self {
                FileOrString::File { .. } => file_contents@,
                FileOrString::String { value } => value@,
                FileOrString::Empty => Seq::<char>::empty(),
            },
    {
        match self {
            FileOrString::File { .. } => file_contents.to_owned(),
            FileOrString::String { value } => value.clone(),
            FileOrString::Empty => String::new(),
        }
    }
}

impl Clone for FileOrString {
    fn clone(&self) -> (r: Self)
        ensures
            r == *self,
    {
        match self {
            FileOrString::File { file } => FileOrString::File { file: file.clone() },
            FileOrString::String { value } => FileOrString::String { value: value.clone() },
            FileOrString::Empty => FileOrString::Empty,
        }
    }
}

/// What a declared parameter value is, as a model.
pub enum MatchRule {
    /// The request's value must equal this text.
    Literal(Seq<char>),
    /// The regex of this source must find a match somewhere in the value.
    Pattern(Seq<char>),
}

/// Whether `value` satisfies `rule`.
pub open spec fn rule_accepts(rule: MatchRule, value: Seq<char>) -> bool {
    match rule {
        MatchRule::Literal(l) => value == l,
        MatchRule::Pattern(p) => regex_finds(p, value),
    }
}

/// A declared parameter value: a literal string or a pattern.
#[derive(Debug)]
pub enum MatchValue {
    /// Matches exactly this string.
    Literal(String),
    /// Matches any value in which the pattern finds a match.
    Pattern(DeserializedRegex),
}

impl View for MatchValue {
    type V = MatchRule;

    open spec fn view(&self) -> MatchRule {
        match self {
            MatchValue::Literal(l) => MatchRule::Literal(l@),
            MatchValue::Pattern(p) => MatchRule::Pattern(p@),
        }
    }
}

impl MatchValue {
    /// Whether `value` satisfies this declared value.
    pub fn matches(&self, value: &str) -> (r: bool)
        ensures
            r == rule_accepts(self@, value@),
    {
        match self {
            MatchValue::Literal(l) => *l == value.to_owned(),
            MatchValue::Pattern(p) => p.is_match(value),
        }
    }

}

impl Clone for MatchValue {
    fn clone(&self) -> (r: Self)
        ensures
            r@ == self@,
    {
        match self {
            MatchValue::Literal(l) => MatchValue::Literal(l.clone()),
            MatchValue::Pattern(p) => MatchValue::Pattern(p.clone()),
        }
    }
}

/// A parameter that a resource declares: its name and the value it accepts.
#[derive(Debug)]
pub struct ResourceParameter {
    /// The parameter's name.
    pub name: String,
    /// The values that the parameter accepts.
    pub value: MatchValue,
}

impl View for ResourceParameter {
    type V = (Seq<char>, MatchRule);

    open spec fn view(&self) -> (Seq<char>, MatchRule) {
        (self.name@, self.value@)
    }
}

impl Clone for ResourceParameter {
    fn clone(&self) -> (r: Self)
        ensures
            r@ == self@,
    {
        ResourceParameter { name: self.name.clone(), value: self.value.clone() }
    }
}

/// The model of a list of declared parameters.
pub open spec fn parameters_view(ps: Seq<ResourceParameter>) -> Seq<(Seq<char>, MatchRule)> {
    ps.map_values(|p: ResourceParameter| p@)
}

/// The model of an optional list of declared parameters.
pub open spec fn declared_view(ps: Option<Vec<ResourceParameter>>) -> Option<
    Seq<(Seq<char>, MatchRule)>,
> {
    match ps {
        Some(ps) => Some(parameters_view(ps@)),
        None => None,
    }
}

/// Copies a list of declared parameters, keeping the model of each.
fn clone_parameters(ps: &Vec<ResourceParameter>) -> (r: Vec<ResourceParameter>)
    ensures
        parameters_view(r@) == parameters_view(ps@),
{
    let mut r: Vec<ResourceParameter> = Vec::new();
    let mut i: usize = 0;
    while i < ps.len()
        invariant
            i <= ps.len(),
            r@.len() == i,
            forall|j: int| 0 <= j < i ==> #[trigger] r@[j]@ == ps@[j]@,
        decreases ps.len() - i,
    {
        let p = ps[i].clone();
        r.push(p);
        i += 1;
    }
    assert(parameters_view(r@) =~= parameters_view(ps@));
    r
}

/// The model of a mock resource.
pub struct ResourceModel {
    pub data_source: FileOrString,
    pub function: Seq<char>,
    pub method: MockResourceMethod,
    pub revision: u32,
    pub parameters: Option<Seq<(Seq<char>, MatchRule)>>,
}

/// A configured canned answer: it applies to calls of `function` under
/// `method` whose parameters satisfy `parameters`.
///
/// Without `parameters` it applies only to calls that carry no parameter.
/// With them, every declared parameter must be present in the call with a
/// value that it accepts; further parameters of the call are ignored.
/// The declared parameters stand for a map from names to values: a
/// well-formed resource declares no name twice (see `well_formed`), which a
/// configuration read from a map always satisfies. Matching does not rely on
/// it: a name declared twice would have to satisfy both entries.
/// The revision is kept but takes no part in matching.
#[derive(Debug)]
pub struct MockResource {
    /// The source of the answer.
    pub data_source: FileOrString,
    /// The function name without the method, such as `ARTIKEL`.
    pub function: String,
    /// The method of the function.
    pub method: MockResourceMethod,
    /// The revision of the resource.
    pub revision: u32,
    /// The declared parameters, if any.
    pub parameters: Option<Vec<ResourceParameter>>,
}

impl View for MockResource {
    type V = ResourceModel;

    open spec fn view(&self) -> ResourceModel {
        ResourceModel {
            data_source: self.data_source,
            function: self.function@,
            method: self.method,
            revision: self.revision,
            parameters: declared_view(self.parameters),
        }
    }
}

/// Whether no name is declared twice, as in a map from names to values.
pub open spec fn names_unique(d: Seq<(Seq<char>, MatchRule)>) -> bool {
    forall|i: int, j: int| 0 <= i < j < d.len() ==> #[trigger] d[i].0 != #[trigger] d[j].0
}

impl MockResource {
    /// Whether the declared parameters form a map: no name is declared twice.
    pub open spec fn well_formed(&self) -> bool {
        match declared_view(self.parameters) {
            Some(d) => names_unique(d),
            None => true,
        }
    }

    /// Checks that no parameter name is declared twice.
    pub fn has_unique_parameter_names(&self) -> (r: bool)
        ensures
            r == self.well_formed(),
    {
        let ps = match &self.parameters {
            Some(ps) => ps,
            None => {
                return true;
            },
        };
        let ghost d = parameters_view(ps@);
        assert(declared_view(self.parameters) == Some(d));
        let mut j: usize = 0;
        while j < ps.len()
            invariant
                j <= ps@.len(),
                d == parameters_view(ps@),
                declared_view(self.parameters) == Some(d),
                d.len() == ps@.len(),
                forall|a: int, b: int| 0 <= a < b < j ==> #[trigger] d[a].0 != #[trigger] d[b].0,
            decreases ps.len() - j,
        {
            let mut i: usize = 0;
            while i < j
                invariant
                    i <= j < ps@.len(),
                    d == parameters_view(ps@),
                    declared_view(self.parameters) == Some(d),
                    d.len() == ps@.len(),
                    forall|a: int, b: int| 0 <= a < b < j ==> #[trigger] d[a].0 != #[trigger] d[b].0,
                    forall|a: int| 0 <= a < i ==> #[trigger] d[a].0 != d[j as int].0,
                decreases j - i,
            {
                assert(d[i as int] == ps@[i as int]@ && d[j as int] == ps@[j as int]@);
                if ps[i].name == ps[j].name {
                    assert(!names_unique(d)) by {
                        assert(d[i as int].0 == d[j as int].0);
                    }
                    return false;
                }
                i += 1;
            }
            j += 1;
        }
        true
    }
}

impl Clone for MockResource {
    fn clone(&self) -> (r: Self)
        ensures
            r@ == self@,
    {
        let parameters = match &self.parameters {
            Some(ps) => Some(clone_parameters(ps)),
            None => None,
        };
        MockResource {
            data_source: self.data_source.clone(),
            function: self.function.clone(),
            method: self.method,
            revision: self.revision,
            parameters,
        }
    }
}

} // verus!
