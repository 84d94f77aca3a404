//! Route labels of bounded cardinality.
//!
//! A matched route is labelled by its template, in which only the parameters
//! that the route allow-lists keep their literal value; the others keep their
//! `{name}` placeholder. An unmatched request is labelled by its raw path, or
//! by a mask when one is configured.

use std::collections::HashMap;
use vstd::prelude::*;

verus! {

/// The placeholder that a route template writes for the parameter `key`.
pub open spec fn placeholder(key: Seq<char>) -> Seq<char> {
    seq!['{'] + key + seq!['}']
}

/// The text that stands for one bound parameter in the label: its literal
/// value when its name is allow-listed, its placeholder otherwise.
pub open spec fn substituted_value(key: Seq<char>, value: Seq<char>, keep: Seq<Seq<char>>) -> Seq<char> {
    if keep.contains(key) {
        value
    } else {
        placeholder(key)
    }
}

/// The variables handed to the template formatter, one per bound parameter.
pub open spec fn substitutions_spec(
    params: Seq<(Seq<char>, Seq<char>)>,
    keep: Seq<Seq<char>>,
) -> Seq<(Seq<char>, Seq<char>)> {
    Seq::new(params.len(), |i: int| (params[i].0, substituted_value(params[i].0, params[i].1, keep)))
}

/// What `strfmt` makes of a template and a list of variables: the filled-in
/// text, or nothing where the template is malformed or names a missing variable.
pub uninterp spec fn formatted_template(
    template: Seq<char>,
    vars: Seq<(Seq<char>, Seq<char>)>,
) -> Option<Seq<char>>;

/// Relies on `strfmt::strfmt`: it fills each `{name}` of the template from the
/// variables, or fails; the outcome depends on the template and on the
/// variables alone (of two pairs with one name, the later one counts).
#[verifier::external_body]
fn format_template(template: &str, vars: &Vec<(String, String)>) -> (r: Option<String>)
    ensures
        r.deep_view() == formatted_template(template@, vars.deep_view()),
{
    let map: HashMap<String, String> = vars.iter().cloned().collect();
    strfmt::strfmt(template, &map).ok()
}

/// The label that a format outcome gives: the filled-in template, or the bare
/// template where formatting failed.
pub open spec fn mixed_label_spec(template: Seq<char>, formatted: Option<Seq<char>>) -> Seq<char> {
    match formatted {
        Some(s) => s,
        None => template,
    }
}

/// The mixed-cardinality label of a matched route.
pub open spec fn mixed_label(
    template: Seq<char>,
    params: Seq<(Seq<char>, Seq<char>)>,
    keep: Seq<Seq<char>>,
) -> Seq<char> {
    mixed_label_spec(template, formatted_template(template, substitutions_spec(params, keep)))
}

/// Whether `names` holds `name`.
pub fn contains_name(names: &Vec<String>, name: &String) -> (r: bool)
    ensures
        r == names.deep_view().contains(name@),
{
    let mut i: usize = 0;
    while i < names.len()
        invariant
            i <= names.len(),
            forall|j: int| 0 <= j < i ==> names.deep_view()[j] != name@,
        decreases names.len() - i,
    {
        if names[i] == *name {
            assert(names.deep_view()[i as int] == name@);
            return true;
        }
        i = i + 1;
    }
    false
}

/// The placeholder `{key}` as a string.
pub fn placeholder_of(key: &String) -> (r: String)
    ensures
        r@ == placeholder(key@),
{
    let mut r = String::from_str("{");
    r.append(key.as_str());
    r.append("}");
    proof {
        reveal_strlit("{");
        reveal_strlit("}");
    }
    assert(r@ =~= placeholder(key@));
    r
}

/// The variables for the template formatter: each bound parameter keeps its
/// value when allow-listed in `keep`, and maps to its placeholder otherwise.
pub fn substitutions(params: &Vec<(String, String)>, keep: &Vec<String>) -> (r: Vec<(String, String)>)
    ensures
        r.deep_view() == substitutions_spec(params.deep_view(), keep.deep_view()),
{
    let mut r: Vec<(String, String)> = Vec::new();
    let mut i: usize = 0;
    while i < params.len()
        invariant
            i <= params.len(),
            r.deep_view() =~= substitutions_spec(params.deep_view(), keep.deep_view()).take(i as int),
        decreases params.len() - i,
    {
        let key = &params[i].0;
        let value = if contains_name(keep, key) {
            params[i].1.clone()
        } else {
            placeholder_of(key)
        };
        let ghost before = r.deep_view();
        r.push((key.clone(), value));
        assert(r.deep_view() =~= before.push((params.deep_view()[i as int].0, substituted_value(
            params.deep_view()[i as int].0,
            params.deep_view()[i as int].1,
            keep.deep_view(),
        ))));
        i = i + 1;
    }
    r
}

/// The label that a format outcome gives (see `mixed_label_spec`); a failed
/// outcome falls back to the unmodified template.
pub fn mixed_label_from(template: &str, formatted: Option<String>) -> (r: String)
    ensures
        r@ == mixed_label_spec(template@, formatted.deep_view()),
{
    match formatted {
        Some(s) => s,
        None => String::from_str(template),
    }
}

/// The mixed-cardinality label of a route matched by `template`, with the
/// parameters `params` bound and the names in `keep` allow-listed.
pub fn mixed_cardinality_label(
    template: &str,
    params: &Vec<(String, String)>,
    keep: &Vec<String>,
) -> (r: String)
    ensures
        r@ == mixed_label(template@, params.deep_view(), keep.deep_view()),
{
    let vars = substitutions(params, keep);
    let formatted = format_template(template, &vars);
    mixed_label_from(template, formatted)
}

/// The two candidate labels of a request, fixed when its response is ready.
pub struct RouteLabels {
    /// The template with allow-listed values filled in, or the raw path when
    /// no route matched.
    pub mixed: String,
    /// The matched template, or the raw path when no route matched.
    pub fallback: String,
    /// Whether any route matched.
    pub matched: bool,
}

/// The mixed label of a request: the mixed-cardinality label of its route, or
/// its raw path when no route matched.
pub open spec fn mixed_candidate(
    path: Seq<char>,
    pattern: Option<Seq<char>>,
    params: Seq<(Seq<char>, Seq<char>)>,
    keep: Seq<Seq<char>>,
) -> Seq<char> {
    match pattern {
        Some(t) => mixed_label(t, params, keep),
        None => path,
    }
}

/// The fallback label of a request: its matched template, or its raw path.
pub open spec fn fallback_candidate(path: Seq<char>, pattern: Option<Seq<char>>) -> Seq<char> {
    match pattern {
        Some(t) => t,
        None => path,
    }
}

/// The label after the correction for a route that accepted a prefix of the
/// path and then answered 404 or 405: such a request keeps the fallback label.
pub open spec fn corrected_label(mixed: Seq<char>, fallback: Seq<char>, status: u16) -> Seq<char> {
    if fallback != mixed && (status == 404 || status == 405) {
        fallback
    } else {
        mixed
    }
}

/// The final label: a request that matched no route gets the mask when one is
/// configured; any other request gets the corrected label.
pub open spec fn final_label(
    mixed: Seq<char>,
    fallback: Seq<char>,
    matched: bool,
    status: u16,
    mask: Option<Seq<char>>,
) -> Seq<char> {
    if !matched && mask is Some {
        mask->0
    } else {
        corrected_label(mixed, fallback, status)
    }
}

/// The route label of a request, from its raw path, its matched template, the
/// bound parameters, the allow-list, the final status and the mask.
pub open spec fn route_label(
    path: Seq<char>,
    pattern: Option<Seq<char>>,
    params: Seq<(Seq<char>, Seq<char>)>,
    keep: Seq<Seq<char>>,
    status: u16,
    mask: Option<Seq<char>>,
) -> Seq<char> {
    final_label(
        mixed_candidate(path, pattern, params, keep),
        fallback_candidate(path, pattern),
        pattern is Some,
        status,
        mask,
    )
}

impl RouteLabels {
    /// The candidate labels of a request to `path`, matched by `pattern` (if
    /// any route matched) with `params` bound, on a route that allow-lists the
    /// parameter names in `keep`.
    pub fn new(
        path: &str,
        pattern: Option<&str>,
        params: &Vec<(String, String)>,
        keep: &Vec<String>,
    ) -> (r: Self)
        ensures
            r.mixed@ == mixed_candidate(path@, pattern.deep_view(), params.deep_view(), keep.deep_view()),
            r.fallback@ == fallback_candidate(path@, pattern.deep_view()),
            r.matched == pattern is Some,
    {
        match pattern {
            Some(t) => RouteLabels {
                mixed: mixed_cardinality_label(t, params, keep),
                fallback: String::from_str(t),
                matched: true,
            },
            None => RouteLabels {
                mixed: String::from_str(path),
                fallback: String::from_str(path),
                matched: false,
            },
        }
    }

    /// The final label of the request, once its status is known (see
    /// `final_label`).
    pub fn resolve(&self, status: u16, mask: &Option<String>) -> (r: String)
        ensures
            r@ == final_label(self.mixed@, self.fallback@, self.matched, status, mask.deep_view()),
    {
        if !self.matched && mask.is_some() {
            return mask.as_ref().unwrap().clone();
        }
        let differs = !(self.fallback == self.mixed);
        if differs && (status == 404 || status == 405) {
            self.fallback.clone()
        } else {
            self.mixed.clone()
        }
    }
}

/// Resolves the route label of a request in one step.
pub fn resolve_route_label(
    path: &str,
    pattern: Option<&str>,
    params: &Vec<(String, String)>,
    keep: &Vec<String>,
    status: u16,
    mask: &Option<String>,
) -> (r: String)
    ensures
        r@ == route_label(path@, pattern.deep_view(), params.deep_view(), keep.deep_view(), status, mask.deep_view()),
{
    RouteLabels::new(path, pattern, params, keep).resolve(status, mask)
}

/// Resolving a label is a function of its inputs alone: two resolutions of the
/// same path, match, allow-list, status and mask give the same label.
pub proof fn route_label_is_deterministic(
    path1: Seq<char>,
    pattern1: Option<Seq<char>>,
    params1: Seq<(Seq<char>, Seq<char>)>,
    keep1: Seq<Seq<char>>,
    path2: Seq<char>,
    pattern2: Option<Seq<char>>,
    params2: Seq<(Seq<char>, Seq<char>)>,
    keep2: Seq<Seq<char>>,
    status: u16,
    mask: Option<Seq<char>>,
)
    requires
        path1 == path2,
        pattern1 == pattern2,
        params1 == params2,
        keep1 == keep2,
    ensures
        route_label(path1, pattern1, params1, keep1, status, mask)
            == route_label(path2, pattern2, params2, keep2, status, mask),
{
}

} // verus!
