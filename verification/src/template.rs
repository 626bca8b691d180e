//! Strict template rendering: every `{{key}}` placeholder of the
//! command template must be bound in the parameter map, or rendering
//! fails naming the first missing key and never yields a partially
//! rendered string. The substitution itself is delegated to the
//! rendering engine; which keys a template needs is decided here, and
//! proved.

use vstd::prelude::*;

use crate::errors::TemplateError;
use crate::kv::spec_entries_map;
use crate::params::Params;

verus! {

/// The position of the first `}}` at or after `i`, if any.
pub open spec fn spec_find_close(t: Seq<char>, i: int) -> Option<int>
    decreases t.len() - i,
{
    if i < 0 || i + 2 > t.len() {
        None
    } else if t[i] == '}' && t[i + 1] == '}' {
        Some(i)
    } else {
        spec_find_close(t, i + 1)
    }
}

/// The keys of the placeholders opening at or after position `i`: each
/// `{{` up to the next `}}`, with an unterminated `{{` counting as
/// literal text.
pub open spec fn spec_placeholders_from(t: Seq<char>, i: int) -> Seq<Seq<char>>
    decreases t.len() - i,
{
    if i < 0 || i + 2 > t.len() {
        Seq::empty()
    } else if t[i] == '{' && t[i + 1] == '{' {
        match spec_find_close(t, i + 2) {
            None => Seq::empty(),
            Some(j) => if i + 2 <= j && j + 2 <= t.len() {
                seq![t.subrange(i + 2, j)] + spec_placeholders_from(t, j + 2)
            } else {
                Seq::empty()
            },
        }
    } else {
        spec_placeholders_from(t, i + 1)
    }
}

/// The placeholder keys of a whole template, in order of appearance.
pub open spec fn spec_placeholders(t: Seq<char>) -> Seq<Seq<char>> {
    spec_placeholders_from(t, 0)
}

/// The first of `keys` that is not bound in `m`, if any.
pub open spec fn spec_first_missing(keys: Seq<Seq<char>>, m: Map<Seq<char>, Seq<char>>) -> Option<
    Seq<char>,
>
    decreases keys.len(),
{
    if keys.len() == 0 {
        None
    } else if !m.contains_key(keys.first()) {
        Some(keys.first())
    } else {
        spec_first_missing(keys.drop_first(), m)
    }
}

/// No key is reported missing exactly when every placeholder is bound;
/// and a reported key is a placeholder that is unbound.
pub proof fn lemma_first_missing_correct(keys: Seq<Seq<char>>, m: Map<Seq<char>, Seq<char>>)
    ensures
        spec_first_missing(keys, m) is None <==> (forall|i: int|
            0 <= i < keys.len() ==> m.contains_key(#[trigger] keys[i])),
        spec_first_missing(keys, m) matches Some(k) ==> keys.contains(k) && !m.contains_key(k),
    decreases keys.len(),
{
    if keys.len() > 0 {
        lemma_first_missing_correct(keys.drop_first(), m);
        if m.contains_key(keys.first()) {
            match spec_first_missing(keys.drop_first(), m) {
                Some(k) => {
                    let j = choose|j: int|
                        0 <= j < keys.drop_first().len() && keys.drop_first()[j] == k;
                    assert(keys[j + 1] == k);
                },
                None => {
                    assert forall|i: int| 0 <= i < keys.len() implies m.contains_key(
                        #[trigger] keys[i],
                    ) by {
                        if i > 0 {
                            assert(keys.drop_first()[i - 1] == keys[i]);
                        }
                    }
                },
            }
        }
    }
}

/// A character a plain placeholder key may consist of: a letter, a
/// digit or an underscore.
pub open spec fn spec_plain_char(c: char) -> bool {
    let u = c as u32;
    (48 <= u && u <= 57) || (65 <= u && u <= 90) || (97 <= u && u <= 122) || c == '_'
}

/// A placeholder key that names one parameter and nothing else: a
/// non-empty plain identifier, and not the engine's `this`, which
/// refers to the whole parameter map rather than one entry.
pub open spec fn spec_plain_key(k: Seq<char>) -> bool {
    &&& k.len() > 0
    &&& forall|i: int| 0 <= i < k.len() ==> spec_plain_char(#[trigger] k[i])
    &&& k != "this"@
}

/// A pure key-substitution template: every placeholder is a plain key,
/// so rendering reads exactly the placeholders' entries — no block
/// helpers, paths or context references.
pub open spec fn spec_plain_template(t: Seq<char>) -> bool {
    forall|i: int|
        0 <= i < spec_placeholders(t).len() ==> spec_plain_key(#[trigger] spec_placeholders(t)[i])
}

/// The two maps are bound alike on every placeholder of the template.
pub open spec fn spec_params_agree(
    t: Seq<char>,
    m1: Map<Seq<char>, Seq<char>>,
    m2: Map<Seq<char>, Seq<char>>,
) -> bool {
    forall|i: int|
        0 <= i < spec_placeholders(t).len() ==> {
            let k = #[trigger] spec_placeholders(t)[i];
            m1.contains_key(k) && m2.contains_key(k) && m1[k] == m2[k]
        }
}

/// What the rendering engine produces for a template under a parameter
/// map, when it succeeds: a function of the two alone, named rather
/// than spelled out.
pub uninterp spec fn render_of(t: Seq<char>, m: Map<Seq<char>, Seq<char>>) -> Option<Seq<char>>;

/// Relies on handlebars' `render_template` under strict mode: whether
/// rendering succeeds, and the rendered string, depend on the template
/// and the parameter map alone. For a pure key-substitution template,
/// a `{{key}}` expression resolves exactly the variable `key` in the
/// data, so any map bound alike on the template's placeholders renders
/// to the same string: entries no placeholder names are never read.
#[verifier::external_body]
fn render_template(template: &str, pairs: &Vec<(String, String)>) -> (r: Result<String, String>)
    ensures
        ({
            let m = spec_entries_map(pairs@.map_values(|p: (String, String)| (p.0@, p.1@)));
            match r {
                Ok(out) => render_of(template@, m) == Some(out@) && (spec_plain_template(template@)
                    ==> forall|m2: Map<Seq<char>, Seq<char>>|
                    spec_params_agree(template@, m, m2) ==> #[trigger] render_of(template@, m2)
                        == Some(out@)),
                Err(_) => render_of(template@, m) is None,
            }
        }),
{
    let data: std::collections::BTreeMap<String, String> = pairs.iter().cloned().collect();
    let mut registry = handlebars::Handlebars::new();
    registry.set_strict_mode(true);
    registry.render_template(template, &data).map_err(|e| format!("{e:?}"))
}

/// The first placeholder of `template` that has no entry in `params`.
pub fn first_missing_placeholder(template: &str, params: &Params) -> (r: Option<String>)
    ensures
        spec_first_missing(spec_placeholders(template@), params.as_map()) == (match r {
            Some(k) => Some(k@),
            None => None::<Seq<char>>,
        }),
{
    let len = template.unicode_len();
    let ghost m = params.as_map();
    let mut i: usize = 0;
    while len >= 2 && i <= len - 2
        invariant
            len == template@.len(),
            i <= len,
            spec_first_missing(spec_placeholders(template@), m) == spec_first_missing(
                spec_placeholders_from(template@, i as int),
                m,
            ),
            m == params.as_map(),
        decreases len - i,
    {
        if template.get_char(i) == '{' && template.get_char(i + 1) == '{' {
            // scan for the closing brace pair
            let mut j: usize = i + 2;
            while j <= len - 2 && !(template.get_char(j) == '}' && template.get_char(j + 1) == '}')
                invariant
                    len == template@.len(),
                    len >= 2,
                    i + 2 <= j,
                    spec_find_close(template@, i + 2) == spec_find_close(template@, j as int),
                decreases len - j,
            {
                j = j + 1;
            }
            if j > len - 2 {
                // unterminated `{{`: no further placeholders
                assert(spec_find_close(template@, j as int) is None);
                assert(spec_placeholders_from(template@, i as int) =~= Seq::<Seq<char>>::empty());
                return None;
            }
            assert(spec_find_close(template@, i + 2) == Some(j as int));
            let key = template.substring_char(i + 2, j);
            let ghost ks = spec_placeholders_from(template@, i as int);
            proof {
                assert(ks =~= seq![key@] + spec_placeholders_from(template@, j + 2));
                assert(ks.first() == key@);
                assert(ks.drop_first() =~= spec_placeholders_from(template@, j + 2));
            }
            if !params.contains_key(key) {
                return Some(key.to_owned());
            }
            i = j + 2;
        } else {
            i = i + 1;
        }
    }
    assert(spec_placeholders_from(template@, i as int) =~= Seq::<Seq<char>>::empty());
    None
}

/// Render the command template strictly: fail, naming the first
/// missing key and carrying the template, when any placeholder is
/// unbound; otherwise hand template and parameters to the engine and
/// return its output, never a partially rendered string. Unused
/// parameters are allowed, and for a pure key-substitution template
/// they do not change the rendering: the second ensures clause states
/// that any parameter map bound alike on the template's placeholders
/// yields the same output.
pub fn verify_template_parameters(template: String, parameters: &Params) -> (r: Result<
    String,
    TemplateError,
>)
    ensures
        ({
            let missing = spec_first_missing(spec_placeholders(template@), parameters.as_map());
            match r {
                Ok(out) => missing is None && render_of(template@, parameters.as_map()) == Some(
                    out@,
                ),
                Err(TemplateError::MissingKey { key, template: t }) => missing == Some(key@) && t@
                    == template@,
                Err(TemplateError::RenderFailure { .. }) => missing is None && render_of(
                    template@,
                    parameters.as_map(),
                ) is None,
            }
        }),
        spec_plain_template(template@) ==> (r matches Ok(out) ==> forall|
            m2: Map<Seq<char>, Seq<char>>,
        |
            spec_params_agree(template@, parameters.as_map(), m2) ==> #[trigger] render_of(
                template@,
                m2,
            ) == Some(out@)),
{
    match first_missing_placeholder(template.as_str(), parameters) {
        Some(key) => Err(TemplateError::MissingKey { key, template }),
        None => {
            let pairs = parameters.entries_vec();
            proof {
                assert(spec_entries_map(pairs@.map_values(|p: (String, String)| (p.0@, p.1@)))
                    == parameters.as_map());
            }
            match render_template(template.as_str(), pairs) {
                Ok(out) => Ok(out),
                Err(detail) => Err(TemplateError::RenderFailure { detail }),
            }
        },
    }
}

/// Rendering is deterministic: the missing-key outcome and the
/// rendered output are functions of the template and parameter map
/// alone, so the same template and parameters always yield the same
/// outcome.
pub proof fn lemma_render_deterministic(
    t1: Seq<char>,
    m1: Map<Seq<char>, Seq<char>>,
    t2: Seq<char>,
    m2: Map<Seq<char>, Seq<char>>,
)
    requires
        t1 == t2,
        m1 == m2,
    ensures
        render_of(t1, m1) == render_of(t2, m2),
        spec_first_missing(spec_placeholders(t1), m1) == spec_first_missing(
            spec_placeholders(t2),
            m2,
        ),
{
}

} // verus!
