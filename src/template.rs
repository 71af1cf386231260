use vstd::prelude::*;
use vstd::string::*;

use crate::text::{decimal_of, push_char, push_decimal};

verus! {

/// Why a message template was refused when its error kind was declared.
#[derive(Debug, Clone, Copy, PartialEq, Eq, Structural)]
pub enum TemplateError {
    /// A `{` opens a placeholder that no `}` closes.
    UnclosedPlaceholder,
    /// A lone `}` that closes no placeholder and is not written `}}`.
    UnmatchedBrace,
    /// A placeholder names no declared field.
    UnknownField,
}

/// A value handed to a field of a message template.
#[derive(Debug, Clone, PartialEq, Eq)]
pub enum FieldValue {
    Int(i64),
    Text(String),
}

/// The text that a field value contributes to a message.
pub open spec fn field_text(v: FieldValue) -> Seq<char> {
    match v {
        FieldValue::Int(n) => decimal_of(n as int),
        FieldValue::Text(s) => s@,
    }
}

/// Index of the first `}` at or after `j`, or the template's length if none.
pub open spec fn close_of(t: Seq<char>, j: int) -> int
    decreases t.len() - j,
{
    if j >= t.len() {
        t.len() as int
    } else if t[j] == '}' {
        j
    } else {
        close_of(t, j + 1)
    }
}

/// Position of the first field named `name` at or after `k`.
pub open spec fn find_name(ns: Seq<Seq<char>>, name: Seq<char>, k: int) -> Option<int>
    decreases ns.len() - k,
{
    if k < 0 || k >= ns.len() {
        None
    } else if ns[k] == name {
        Some(k)
    } else {
        find_name(ns, name, k + 1)
    }
}

/// `r` with `x` put in front of its text, or the same error.
pub open spec fn prefixed(
    x: Seq<char>,
    r: Result<Seq<char>, TemplateError>,
) -> Result<Seq<char>, TemplateError> {
    match r {
        Ok(s) => Ok(x + s),
        Err(e) => Err(e),
    }
}

/// The template `t` from position `i` on, with each placeholder `{name}`
/// replaced by the value `vs[k]` of the field `ns[k]` of that name; `{{` and
/// `}}` stand for a single brace.
pub open spec fn interpolate_from(
    t: Seq<char>,
    ns: Seq<Seq<char>>,
    vs: Seq<Seq<char>>,
    i: int,
) -> Result<Seq<char>, TemplateError>
    decreases t.len() - i,
{
    if i < 0 || i >= t.len() {
        Ok(Seq::empty())
    } else if t[i] == '{' {
        if i + 1 < t.len() && t[i + 1] == '{' {
            prefixed(seq!['{'], interpolate_from(t, ns, vs, i + 2))
        } else {
            let j = close_of(t, i + 1);
            if !(i < j && j < t.len()) {
                Err(TemplateError::UnclosedPlaceholder)
            } else {
                match find_name(ns, t.subrange(i + 1, j), 0) {
                    None => Err(TemplateError::UnknownField),
                    Some(k) => prefixed(vs[k], interpolate_from(t, ns, vs, j + 1)),
                }
            }
        }
    } else if t[i] == '}' {
        if i + 1 < t.len() && t[i + 1] == '}' {
            prefixed(seq!['}'], interpolate_from(t, ns, vs, i + 2))
        } else {
            Err(TemplateError::UnmatchedBrace)
        }
    } else {
        prefixed(seq![t[i]], interpolate_from(t, ns, vs, i + 1))
    }
}

/// The whole template `t` with its fields `ns` substituted by the values `vs`.
pub open spec fn interpolate(
    t: Seq<char>,
    ns: Seq<Seq<char>>,
    vs: Seq<Seq<char>>,
) -> Result<Seq<char>, TemplateError> {
    interpolate_from(t, ns, vs, 0)
}

proof fn lemma_close_of_bounds(t: Seq<char>, j: int)
    requires
        0 <= j,
    ensures
        j <= close_of(t, j) <= t.len() || (j > t.len() && close_of(t, j) == t.len()),
        close_of(t, j) < t.len() ==> t[close_of(t, j)] == '}',
        forall|m: int| j <= m < close_of(t, j) ==> t[m] != '}',
    decreases t.len() - j,
{
    if j < t.len() && t[j] != '}' {
        lemma_close_of_bounds(t, j + 1);
    }
}

proof fn lemma_find_name_bounds(ns: Seq<Seq<char>>, name: Seq<char>, k: int)
    ensures
        find_name(ns, name, k) matches Some(m) ==> 0 <= m < ns.len() && ns[m] == name,
    decreases ns.len() - k,
{
    if 0 <= k < ns.len() && ns[k] != name {
        lemma_find_name_bounds(ns, name, k + 1);
    }
}

/// Whether a template succeeds or fails, and with which error, does not depend
/// on the values handed to its fields.
pub proof fn lemma_outcome_independent_of_values(
    t: Seq<char>,
    ns: Seq<Seq<char>>,
    vs1: Seq<Seq<char>>,
    vs2: Seq<Seq<char>>,
    i: int,
)
    ensures
        interpolate_from(t, ns, vs1, i) is Ok <==> interpolate_from(t, ns, vs2, i) is Ok,
        interpolate_from(t, ns, vs1, i) matches Err(e) ==> interpolate_from(t, ns, vs2, i)
            == Err::<Seq<char>, TemplateError>(e),
    decreases t.len() - i,
{
    if i < 0 || i >= t.len() {
    } else if t[i] == '{' {
        if i + 1 < t.len() && t[i + 1] == '{' {
            lemma_outcome_independent_of_values(t, ns, vs1, vs2, i + 2);
        } else {
            let j = close_of(t, i + 1);
            if i < j && j < t.len() {
                lemma_outcome_independent_of_values(t, ns, vs1, vs2, j + 1);
            }
        }
    } else if t[i] == '}' {
        if i + 1 < t.len() && t[i + 1] == '}' {
            lemma_outcome_independent_of_values(t, ns, vs1, vs2, i + 2);
        }
    } else {
        lemma_outcome_independent_of_values(t, ns, vs1, vs2, i + 1);
    }
}

/// Appends the text of a field value to `out`.
pub(crate) fn push_field_text(out: &mut String, v: &FieldValue)
    ensures
        final(out)@ == old(out)@ + field_text(*v),
{
    match v {
        FieldValue::Int(n) => push_decimal(out, *n),
        FieldValue::Text(s) => out.append(s.as_str()),
    }
}

/// The text of each field value, in order.
pub(crate) fn field_texts(vals: &Vec<FieldValue>) -> (r: Vec<String>)
    ensures
        r@.len() == vals@.len(),
        forall|k: int| 0 <= k < vals@.len() ==> r@[k]@ == field_text(#[trigger] vals@[k]),
{
    let mut r: Vec<String> = Vec::new();
    let mut k: usize = 0;
    while k < vals.len()
        invariant
            k <= vals@.len(),
            r@.len() == k,
            forall|m: int| 0 <= m < k ==> r@[m]@ == field_text(#[trigger] vals@[m]),
        decreases vals@.len() - k,
    {
        let mut s = String::new();
        push_field_text(&mut s, &vals[k]);
        r.push(s);
        k = k + 1;
    }
    r
}

/// Position of the field named `name`, searching from the first.
fn find_field(names: &Vec<String>, name: &String) -> (r: Option<usize>)
    ensures
        r matches Some(k) ==> find_name(names.deep_view(), name@, 0) == Some(k as int),
        r is None ==> find_name(names.deep_view(), name@, 0) is None,
{
    let ghost ns = names.deep_view();
    let mut k: usize = 0;
    while k < names.len()
        invariant
            k <= names@.len(),
            ns == names.deep_view(),
            ns.len() == names@.len(),
            find_name(ns, name@, 0) == find_name(ns, name@, k as int),
        decreases names@.len() - k,
    {
        assert(ns[k as int] == names@[k as int]@);
        if names[k] == *name {
            return Some(k);
        }
        k = k + 1;
    }
    None
}

/// Substitutes the values `vals` for the fields `names` in the template `t`.
pub fn interpolate_template(t: &str, names: &Vec<String>, vals: &Vec<String>) -> (r: Result<
    String,
    TemplateError,
>)
    requires
        vals@.len() == names@.len(),
    ensures
        r matches Ok(s) ==> interpolate(t@, names.deep_view(), vals.deep_view()) == Ok::<
            Seq<char>,
            TemplateError,
        >(s@),
        r matches Err(e) ==> interpolate(t@, names.deep_view(), vals.deep_view()) == Err::<
            Seq<char>,
            TemplateError,
        >(e),
{
    let ghost ts = t@;
    let ghost ns = names.deep_view();
    let ghost vs = vals.deep_view();
    let n = t.unicode_len();
    let mut out = String::new();
    let mut i: usize = 0;
    while i < n
        invariant
            n == ts.len(),
            ts == t@,
            ns == names.deep_view(),
            vs == vals.deep_view(),
            vs.len() == ns.len(),
            i <= n,
            interpolate(ts, ns, vs) == prefixed(out@, interpolate_from(ts, ns, vs, i as int)),
        decreases n - i,
    {
        let c = t.get_char(i);
        if c == '{' {
            if i + 1 < n && t.get_char(i + 1) == '{' {
                proof {
                    assert(out@ + (seq!['{'] + interpolate_from(ts, ns, vs, i + 2).unwrap())
                        =~= out@.push('{') + interpolate_from(ts, ns, vs, i + 2).unwrap());
                }
                push_char(&mut out, '{');
                i = i + 2;
            } else {
                let mut name = String::new();
                let mut j: usize = i + 1;
                proof {
                    lemma_close_of_bounds(ts, i + 1);
                }
                while j < n && t.get_char(j) != '}'
                    invariant
                        n == ts.len(),
                        ts == t@,
                        i < j <= n,
                        close_of(ts, i + 1) == close_of(ts, j as int),
                        name@ == ts.subrange(i + 1, j as int),
                    decreases n - j,
                {
                    let d = t.get_char(j);
                    push_char(&mut name, d);
                    proof {
                        assert(name@ =~= ts.subrange(i + 1, j + 1));
                    }
                    j = j + 1;
                }
                proof {
                    lemma_close_of_bounds(ts, j as int);
                }
                if j >= n {
                    return Err(TemplateError::UnclosedPlaceholder);
                }
                match find_field(names, &name) {
                    None => {
                        return Err(TemplateError::UnknownField);
                    },
                    Some(k) => {
                        proof {
                            lemma_find_name_bounds(ns, name@, 0);
                            assert(vs[k as int] == vals@[k as int]@);
                            let rest = interpolate_from(ts, ns, vs, j + 1);
                            if rest is Ok {
                                assert(out@ + (vs[k as int] + rest.unwrap()) =~= (out@
                                    + vals@[k as int]@) + rest.unwrap());
                            }
                        }
                        out.append(vals[k].as_str());
                        i = j + 1;
                    },
                }
            }
        } else if c == '}' {
            if i + 1 < n && t.get_char(i + 1) == '}' {
                proof {
                    assert(out@ + (seq!['}'] + interpolate_from(ts, ns, vs, i + 2).unwrap())
                        =~= out@.push('}') + interpolate_from(ts, ns, vs, i + 2).unwrap());
                }
                push_char(&mut out, '}');
                i = i + 2;
            } else {
                return Err(TemplateError::UnmatchedBrace);
            }
        } else {
            proof {
                assert(out@ + (seq![c] + interpolate_from(ts, ns, vs, i + 1).unwrap())
                    =~= out@.push(c) + interpolate_from(ts, ns, vs, i + 1).unwrap());
            }
            push_char(&mut out, c);
            i = i + 1;
        }
    }
    assert(out@ + Seq::<char>::empty() =~= out@);
    Ok(out)
}

} // verus!
