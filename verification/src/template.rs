//! Templating: `{{NAME}}` tokens in a text are replaced by the values of variables.

use crate::error::CopyError;
use crate::error::CopyErrorModel;
use crate::text::replace_all;
use crate::text::replaced;
use crate::text::same_text;
use vstd::prelude::*;
use vstd::string::*;

verus! {

/// The variables that templating draws on: pairs of a name and a value. Where a name
/// stands more than once, the first pair counts.
#[derive(Debug, Clone, PartialEq, Eq)]
pub struct Environment {
    pub variables: Vec<(String, String)>,
}

impl View for Environment {
    type V = Seq<(Seq<char>, Seq<char>)>;

    open spec fn view(&self) -> Seq<(Seq<char>, Seq<char>)> {
        self.variables.deep_view()
    }
}

/// The value of the variable `name`, if it is defined.
pub open spec fn value_of(variables: Seq<(Seq<char>, Seq<char>)>, name: Seq<char>) -> Option<
    Seq<char>,
>
    decreases variables.len(),
{
    if variables.len() == 0 {
        None
    } else if variables[0].0 == name {
        Some(variables[0].1)
    } else {
        value_of(variables.skip(1), name)
    }
}

impl Environment {
    /// The value of the variable `name`, if it is defined.
    pub fn lookup(&self, name: &str) -> (r: Option<&String>)
        ensures
            match r {
                Some(value) => value_of(self@, name@) == Some(value@),
                None => value_of(self@, name@) is None,
            },
    {
        let mut i: usize = 0;
        assert(self@.skip(0) =~= self@);
        while i < self.variables.len()
            invariant
                i <= self.variables.len(),
                value_of(self@.skip(i as int), name@) == value_of(self@, name@),
            decreases self.variables.len() - i,
        {
            let ghost rest = self@.skip(i as int);
            assert(rest[0] == self@[i as int]);
            assert(rest.skip(1) =~= self@.skip(i + 1));
            if same_text(self.variables[i].0.as_str(), name) {
                return Some(&self.variables[i].1);
            }
            i += 1;
        }
        None
    }
}

/// `regex::Error`, the error of `regex::Regex::new`: declared so that it can be handed on.
/// Nothing is known of what it holds.
#[verifier::external_type_specification]
#[verifier::external_body]
pub struct ExRegexError(regex::Error);

/// What the regex crate finds for a pattern in a text: for each match, from left to right
/// and without overlap, the text of the first capture group, or `None` where that group took
/// no part in the match. `None` as a whole where the crate refuses the pattern.
pub uninterp spec fn regex_first_groups(pattern: Seq<char>, haystack: Seq<char>) -> Option<
    Seq<Option<Seq<char>>>,
>;

/// Calls `regex::Regex::new` on `pattern` and `regex::Regex::captures_iter` on `haystack`,
/// and takes from each match the text of capture group 1 (`Captures::get`, `Match::as_str`).
/// The contract only gives the outcome its name: both calls depend on nothing but their
/// arguments. Nothing is claimed here about which patterns are accepted or what matches.
#[verifier::external_body]
fn first_groups(pattern: &str, haystack: &str) -> (r: Result<Vec<Option<String>>, regex::Error>)
    ensures
        match r {
            Ok(groups) => regex_first_groups(pattern@, haystack@) == Some(groups.deep_view()),
            Err(_) => regex_first_groups(pattern@, haystack@) is None,
        },
{
    let compiled = regex::Regex::new(pattern)?;
    Ok(
        compiled.captures_iter(haystack).map(
            |found| found.get(1).map(|group| group.as_str().to_string()),
        ).collect(),
    )
}

/// The pattern of a token: two opening braces, one or more characters that are neither a
/// closing brace nor white space, two closing braces. The characters between the braces
/// are the first capture group: the name of a variable.
pub const TOKEN_PATTERN: &'static str = r"\{\{([^}\s]+)\}\}";

/// The token that stands for the variable `name`.
pub open spec fn token_of(name: Seq<char>) -> Seq<char> {
    "{{"@ + name + "}}"@
}

/// `content` after one name was dealt with: where the variable is defined, every occurrence
/// of its token is replaced by its value; where it is not, nothing changes.
pub open spec fn substituted_one(
    content: Seq<char>,
    name: Option<Seq<char>>,
    variables: Seq<(Seq<char>, Seq<char>)>,
) -> Seq<char> {
    match name {
        Some(name) => match value_of(variables, name) {
            Some(value) => replaced(content, token_of(name), value),
            None => content,
        },
        None => content,
    }
}

/// `content` after the names were dealt with one after the other, each on what the ones
/// before it left. A value that was put in is not searched for tokens of its own; only a
/// later name of the list can still change it.
pub open spec fn substituted(
    content: Seq<char>,
    names: Seq<Option<Seq<char>>>,
    variables: Seq<(Seq<char>, Seq<char>)>,
) -> Seq<char>
    decreases names.len(),
{
    if names.len() == 0 {
        content
    } else {
        substituted(substituted_one(content, names[0], variables), names.skip(1), variables)
    }
}

/// Replaces in `content` the tokens of the variables `names`, in the order of the list.
pub fn substitute(content: &str, names: &Vec<Option<String>>, environment: &Environment) -> (r:
    String)
    ensures
        r@ == substituted(content@, names.deep_view(), environment@),
{
    let ghost all = names.deep_view();
    let mut current = String::from_str(content);
    let mut i: usize = 0;
    assert(all.skip(0) =~= all);
    while i < names.len()
        invariant
            i <= names.len(),
            all == names.deep_view(),
            substituted(current@, all.skip(i as int), environment@) == substituted(
                content@,
                all,
                environment@,
            ),
        decreases names.len() - i,
    {
        let ghost rest = all.skip(i as int);
        assert(rest.skip(1) =~= all.skip(i + 1));
        assert(rest[0] == names@[i as int].deep_view());
        match &names[i] {
            Some(name) => {
                match environment.lookup(name.as_str()) {
                    Some(value) => {
                        let mut token = String::from_str("{{");
                        token.append(name.as_str());
                        token.append("}}");
                        current = replace_all(current.as_str(), token.as_str(), value.as_str());
                    },
                    None => {},
                }
            },
            None => {},
        }
        i += 1;
    }
    current
}

/// The pairs of name and value for those of `names` whose variable is defined, in the order
/// of the list: what `substituted` replaces, step by step.
pub open spec fn resolutions(
    names: Seq<Option<Seq<char>>>,
    variables: Seq<(Seq<char>, Seq<char>)>,
) -> Seq<(Seq<char>, Seq<char>)>
    decreases names.len(),
{
    if names.len() == 0 {
        Seq::empty()
    } else {
        let rest = resolutions(names.drop_last(), variables);
        match names.last() {
            Some(name) => match value_of(variables, name) {
                Some(value) => rest.push((name, value)),
                None => rest,
            },
            None => rest,
        }
    }
}

/// Lists the pairs of name and value for those of `names` whose variable is defined.
pub fn resolve(names: &Vec<Option<String>>, environment: &Environment) -> (r: Vec<
    (String, String),
>)
    ensures
        r.deep_view() == resolutions(names.deep_view(), environment@),
{
    let ghost all = names.deep_view();
    let mut pairs: Vec<(String, String)> = Vec::new();
    let mut i: usize = 0;
    assert(pairs.deep_view() =~= Seq::<(Seq<char>, Seq<char>)>::empty());
    assert(all.take(0) =~= Seq::<Option<Seq<char>>>::empty());
    while i < names.len()
        invariant
            i <= names.len(),
            all == names.deep_view(),
            pairs.deep_view() == resolutions(all.take(i as int), environment@),
        decreases names.len() - i,
    {
        let ghost next = all.take(i + 1);
        assert(next.drop_last() =~= all.take(i as int));
        assert(next.last() == names@[i as int].deep_view());
        match &names[i] {
            Some(name) => {
                match environment.lookup(name.as_str()) {
                    Some(value) => {
                        let ghost before = pairs.deep_view();
                        pairs.push((name.clone(), value.clone()));
                        assert(pairs.deep_view() =~= before.push((name@, value@)));
                    },
                    None => {},
                }
            },
            None => {},
        }
        i += 1;
    }
    assert(all.take(i as int) =~= all);
    pairs
}

/// The names of the tokens of `content`, one for each token, from left to right: what the
/// token pattern finds. An error where the pattern is refused.
pub open spec fn names_found(content: Seq<char>) -> Result<
    Seq<Option<Seq<char>>>,
    CopyErrorModel,
> {
    match regex_first_groups(TOKEN_PATTERN@, content) {
        Some(names) => Ok(names),
        None => Err(CopyErrorModel::Pattern),
    }
}

/// Finds the names of the tokens of `content`.
pub fn find_names(content: &str) -> (r: Result<Vec<Option<String>>, CopyError>)
    ensures
        match r {
            Ok(names) => names_found(content@) == Ok::<Seq<Option<Seq<char>>>, CopyErrorModel>(
                names.deep_view(),
            ),
            Err(error) => names_found(content@) == Err::<Seq<Option<Seq<char>>>, CopyErrorModel>(
                error@,
            ),
        },
{
    match first_groups(TOKEN_PATTERN, content) {
        Ok(names) => Ok(names),
        Err(_) => Err(CopyError::Pattern),
    }
}

/// What templating makes of `content`: the names are those of the tokens of `content` as it
/// stands before anything is replaced. An error where the pattern is refused.
pub open spec fn expanded(content: Seq<char>, variables: Seq<(Seq<char>, Seq<char>)>) -> Result<
    Seq<char>,
    CopyErrorModel,
> {
    match names_found(content) {
        Ok(names) => Ok(substituted(content, names, variables)),
        Err(error) => Err(error),
    }
}

/// Replaces the tokens of `content` by the values of their variables. Tokens of variables
/// that are not defined stay as they are.
pub fn expand(content: &str, environment: &Environment) -> (r: Result<String, CopyError>)
    ensures
        match r {
            Ok(text) => expanded(content@, environment@) == Ok::<Seq<char>, CopyErrorModel>(
                text@,
            ),
            Err(error) => expanded(content@, environment@) == Err::<Seq<char>, CopyErrorModel>(
                error@,
            ),
        },
{
    match find_names(content) {
        Ok(names) => Ok(substitute(content, &names, environment)),
        Err(error) => Err(error),
    }
}

/// Tokens of undefined variables stay: where none of the names is defined, the content
/// comes out exactly as it went in.
pub proof fn lemma_undefined_stays(
    content: Seq<char>,
    names: Seq<Option<Seq<char>>>,
    variables: Seq<(Seq<char>, Seq<char>)>,
)
    requires
        forall|i: int|
            0 <= i < names.len() ==> (#[trigger] names[i] matches Some(name) ==> value_of(
                variables,
                name,
            ) is None),
    ensures
        substituted(content, names, variables) == content,
        resolutions(names, variables) == Seq::<(Seq<char>, Seq<char>)>::empty(),
    decreases names.len(),
{
    if names.len() > 0 {
        assert(substituted_one(content, names[0], variables) == content);
        assert forall|i: int| 0 <= i < names.skip(1).len() implies (#[trigger] names.skip(
            1,
        )[i] matches Some(name) ==> value_of(variables, name) is None) by {
            assert(names.skip(1)[i] == names[i + 1]);
        }
        lemma_undefined_stays(content, names.skip(1), variables);
        let front = names.drop_last();
        assert forall|i: int| 0 <= i < front.len() implies (#[trigger] front[i] matches Some(
            name,
        ) ==> value_of(variables, name) is None) by {
            assert(front[i] == names[i]);
        }
        lemma_undefined_stays(content, front, variables);
    }
}

/// Templating looks at nothing but the variables that the content names: two sets of
/// variables that agree on the names of the tokens give the same text. So a templated
/// copy repeats itself for as long as those variables keep their values.
pub proof fn lemma_same_variables_same_text(
    content: Seq<char>,
    names: Seq<Option<Seq<char>>>,
    first: Seq<(Seq<char>, Seq<char>)>,
    second: Seq<(Seq<char>, Seq<char>)>,
)
    requires
        forall|i: int|
            0 <= i < names.len() ==> (#[trigger] names[i] matches Some(name) ==> value_of(
                first,
                name,
            ) == value_of(second, name)),
    ensures
        substituted(content, names, first) == substituted(content, names, second),
    decreases names.len(),
{
    if names.len() > 0 {
        let next = substituted_one(content, names[0], first);
        assert(next == substituted_one(content, names[0], second));
        assert forall|i: int| 0 <= i < names.skip(1).len() implies (#[trigger] names.skip(
            1,
        )[i] matches Some(name) ==> value_of(first, name) == value_of(second, name)) by {
            assert(names.skip(1)[i] == names[i + 1]);
        }
        lemma_same_variables_same_text(next, names.skip(1), first, second);
    }
}

} // verus!
