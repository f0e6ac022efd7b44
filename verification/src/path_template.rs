//! URL-path templates with named placeholders.
//!
//! A template such as `/videos/{video_id}` is resolved at call time: literal
//! characters are kept, and each `{name}` placeholder is replaced by the
//! value the parameter mapping binds to `name`. A placeholder whose name is
//! unbound resolves to the empty string — the policy of the operation
//! catalogue — while [`resolve_path_strict`] instead reports the missing
//! parameter.

use vstd::prelude::*;
use vstd::string::StrSliceExecFns;
use vstd::string::StringExecFns;

use crate::string_map::StringMap;

verus! {

/// The value `m` supplies for the placeholder `name`: the bound value, or
/// the empty string if `name` is unbound.
pub open spec fn param_or_empty(m: Map<Seq<char>, Seq<char>>, name: Seq<char>) -> Seq<char> {
    if m.dom().contains(name) {
        m[name]
    } else {
        Seq::empty()
    }
}

/// The resolution of template `t` against parameters `m`: literal characters
/// are kept, each `{name}` placeholder becomes `param_or_empty(m, name)`,
/// and a `{` that is never closed is kept literally.
pub open spec fn resolved(t: Seq<char>, m: Map<Seq<char>, Seq<char>>) -> Seq<char>
    decreases t.len(),
{
    if t.len() == 0 {
        Seq::empty()
    } else if t[0] == '{' {
        resolved_placeholder(t.skip(1), m, Seq::empty())
    } else {
        seq![t[0]] + resolved(t.skip(1), m)
    }
}

/// Resolution while inside a placeholder: `name` holds the characters of the
/// placeholder's name read so far.
pub open spec fn resolved_placeholder(
    t: Seq<char>,
    m: Map<Seq<char>, Seq<char>>,
    name: Seq<char>,
) -> Seq<char>
    decreases t.len(),
{
    if t.len() == 0 {
        seq!['{'] + name
    } else if t[0] == '}' {
        param_or_empty(m, name) + resolved(t.skip(1), m)
    } else {
        resolved_placeholder(t.skip(1), m, name.push(t[0]))
    }
}

/// The names of the closed placeholders of template `t`.
pub open spec fn placeholders(t: Seq<char>) -> Set<Seq<char>>
    decreases t.len(),
{
    if t.len() == 0 {
        Set::empty()
    } else if t[0] == '{' {
        placeholders_name(t.skip(1), Seq::empty())
    } else {
        placeholders(t.skip(1))
    }
}

/// Placeholder names while inside a placeholder whose name so far is `name`.
pub open spec fn placeholders_name(t: Seq<char>, name: Seq<char>) -> Set<Seq<char>>
    decreases t.len(),
{
    if t.len() == 0 {
        Set::empty()
    } else if t[0] == '}' {
        placeholders(t.skip(1)).insert(name)
    } else {
        placeholders_name(t.skip(1), name.push(t[0]))
    }
}

/// A template is well formed when every `{` is closed by a later `}` and no
/// `}` or nested `{` occurs outside that pairing.
pub open spec fn wf_template(t: Seq<char>) -> bool
    decreases t.len(),
{
    if t.len() == 0 {
        true
    } else if t[0] == '{' {
        wf_placeholder_name(t.skip(1))
    } else {
        t[0] != '}' && wf_template(t.skip(1))
    }
}

/// Well-formedness while inside a placeholder.
pub open spec fn wf_placeholder_name(t: Seq<char>) -> bool
    decreases t.len(),
{
    if t.len() == 0 {
        false
    } else if t[0] == '}' {
        wf_template(t.skip(1))
    } else {
        t[0] != '{' && wf_placeholder_name(t.skip(1))
    }
}

/// `s` holds no brace character.
pub open spec fn brace_free(s: Seq<char>) -> bool {
    forall|i: int| 0 <= i < s.len() ==> #[trigger] s[i] != '{' && s[i] != '}'
}

/// A template starting with `/` resolves to a path starting with `/`.
pub proof fn lemma_resolved_starts_with_slash(t: Seq<char>, m: Map<Seq<char>, Seq<char>>)
    requires
        t.len() > 0,
        t[0] == '/',
    ensures
        resolved(t, m).len() > 0,
        resolved(t, m)[0] == '/',
{
    assert(resolved(t, m) == seq![t[0]] + resolved(t.skip(1), m));
}

/// Splitting off a `{`-free prefix of length `c`: the prefix passes through
/// resolution unchanged, and contributes no placeholder.
proof fn lemma_literal_chunk(t: Seq<char>, c: int, m: Map<Seq<char>, Seq<char>>)
    requires
        0 <= c <= t.len(),
        forall|k: int| 0 <= k < c ==> #[trigger] t[k] != '{',
    ensures
        resolved(t, m) == t.take(c) + resolved(t.skip(c), m),
        placeholders(t) == placeholders(t.skip(c)),
    decreases c,
{
    if c == 0 {
        assert(t.skip(0) =~= t);
        assert(t.take(0) + resolved(t, m) =~= resolved(t, m));
    } else {
        lemma_literal_chunk(t.skip(1), c - 1, m);
        assert(t.skip(1).skip(c - 1) =~= t.skip(c));
        assert(seq![t[0]] + t.skip(1).take(c - 1) =~= t.take(c));
        assert(seq![t[0]] + (t.skip(1).take(c - 1) + resolved(t.skip(c), m)) =~= (seq![t[0]]
            + t.skip(1).take(c - 1)) + resolved(t.skip(c), m));
    }
}

/// Reading a placeholder name up to the first `}`, at index `e` of `u`: the
/// placeholder resolves to the parameter bound to the accumulated name.
proof fn lemma_placeholder_name_chunk(
    u: Seq<char>,
    e: int,
    m: Map<Seq<char>, Seq<char>>,
    name: Seq<char>,
)
    requires
        0 <= e < u.len(),
        u[e] == '}',
        forall|k: int| 0 <= k < e ==> #[trigger] u[k] != '}',
    ensures
        resolved_placeholder(u, m, name) == param_or_empty(m, name + u.take(e)) + resolved(
            u.skip(e + 1),
            m,
        ),
        placeholders_name(u, name) == placeholders(u.skip(e + 1)).insert(name + u.take(e)),
    decreases e,
{
    if e == 0 {
        assert(name + u.take(0) =~= name);
    } else {
        lemma_placeholder_name_chunk(u.skip(1), e - 1, m, name.push(u[0]));
        assert(name.push(u[0]) + u.skip(1).take(e - 1) =~= name + u.take(e));
        assert(u.skip(1).skip(e - 1 + 1) =~= u.skip(e + 1));
    }
}

/// A placeholder opened at the head of `t` and closed at index `e` resolves
/// to the parameter bound to the name between the braces, and contributes
/// exactly that name to the template's placeholders.
proof fn lemma_placeholder_chunk(t: Seq<char>, e: int, m: Map<Seq<char>, Seq<char>>)
    requires
        t.len() > 0,
        t[0] == '{',
        1 <= e < t.len(),
        t[e] == '}',
        forall|k: int| 1 <= k < e ==> #[trigger] t[k] != '}',
    ensures
        resolved(t, m) == param_or_empty(m, t.subrange(1, e)) + resolved(t.skip(e + 1), m),
        placeholders(t) == placeholders(t.skip(e + 1)).insert(t.subrange(1, e)),
{
    let u = t.skip(1);
    assert forall|k: int| 0 <= k < e - 1 implies #[trigger] u[k] != '}' by {
        assert(u[k] == t[k + 1]);
    }
    lemma_placeholder_name_chunk(u, e - 1, m, Seq::empty());
    assert(Seq::empty() + u.take(e - 1) =~= t.subrange(1, e));
    assert(u.skip(e - 1 + 1) =~= t.skip(e + 1));
}

/// A `{` that no later `}` closes leaves the rest of the template unchanged
/// and contributes no placeholder.
proof fn lemma_unclosed_name(u: Seq<char>, m: Map<Seq<char>, Seq<char>>, name: Seq<char>)
    requires
        forall|k: int| 0 <= k < u.len() ==> #[trigger] u[k] != '}',
    ensures
        resolved_placeholder(u, m, name) == seq!['{'] + name + u,
        placeholders_name(u, name) == Set::<Seq<char>>::empty(),
    decreases u.len(),
{
    if u.len() == 0 {
        assert(seq!['{'] + name + u =~= seq!['{'] + name);
    } else {
        lemma_unclosed_name(u.skip(1), m, name.push(u[0]));
        assert(seq!['{'] + name.push(u[0]) + u.skip(1) =~= seq!['{'] + name + u);
    }
}

/// See [`lemma_unclosed_name`]: the whole remainder passes through.
proof fn lemma_unclosed_chunk(t: Seq<char>, m: Map<Seq<char>, Seq<char>>)
    requires
        t.len() > 0,
        t[0] == '{',
        forall|k: int| 1 <= k < t.len() ==> #[trigger] t[k] != '}',
    ensures
        resolved(t, m) == t,
        placeholders(t) == Set::<Seq<char>>::empty(),
{
    let u = t.skip(1);
    assert forall|k: int| 0 <= k < u.len() implies #[trigger] u[k] != '}' by {
        assert(u[k] == t[k + 1]);
    }
    lemma_unclosed_name(u, m, Seq::empty());
    assert(seq!['{'] + Seq::<char>::empty() + u =~= t);
}

/// Concatenation preserves brace-freedom.
proof fn lemma_brace_free_concat(a: Seq<char>, b: Seq<char>)
    requires
        brace_free(a),
        brace_free(b),
    ensures
        brace_free(a + b),
{
    assert forall|i: int| 0 <= i < (a + b).len() implies #[trigger] (a + b)[i] != '{' && (a
        + b)[i] != '}' by {
        if i < a.len() {
            assert((a + b)[i] == a[i]);
        } else {
            assert((a + b)[i] == b[i - a.len()]);
        }
    }
}

/// On a well-formed template all of whose placeholders are bound to
/// brace-free values, resolution substitutes every placeholder in place and
/// leaves no `{...}` token — no brace at all — in the resolved path.
pub proof fn lemma_resolved_no_brace_tokens(t: Seq<char>, m: Map<Seq<char>, Seq<char>>)
    requires
        wf_template(t),
        placeholders(t).subset_of(m.dom()),
        forall|k: Seq<char>| m.dom().contains(k) ==> brace_free(#[trigger] m[k]),
    ensures
        brace_free(resolved(t, m)),
    decreases t.len(),
{
    if t.len() == 0 {
    } else if t[0] == '{' {
        lemma_resolved_no_brace_tokens_name(t.skip(1), m, Seq::empty());
    } else {
        assert(placeholders(t.skip(1)) == placeholders(t));
        lemma_resolved_no_brace_tokens(t.skip(1), m);
        lemma_brace_free_concat(seq![t[0]], resolved(t.skip(1), m));
    }
}

/// A template of the catalogue's shape — a literal prefix, one `{name}`
/// placeholder, and a literal suffix — resolves to exactly the supplied
/// value in the placeholder's position: prefix, then the parameter bound to
/// `name` (or the empty string), then the suffix.
pub proof fn lemma_single_placeholder_template(
    prefix: Seq<char>,
    name: Seq<char>,
    suffix: Seq<char>,
    m: Map<Seq<char>, Seq<char>>,
)
    requires
        forall|k: int| 0 <= k < prefix.len() ==> #[trigger] prefix[k] != '{',
        forall|k: int| 0 <= k < name.len() ==> #[trigger] name[k] != '}',
        forall|k: int| 0 <= k < suffix.len() ==> #[trigger] suffix[k] != '{',
    ensures
        resolved(prefix + seq!['{'] + name + seq!['}'] + suffix, m) == prefix + param_or_empty(
            m,
            name,
        ) + suffix,
{
    let t = prefix + seq!['{'] + name + seq!['}'] + suffix;
    let p = prefix.len() as int;
    let u = seq!['{'] + name + seq!['}'] + suffix;
    let e = name.len() + 1;
    assert forall|k: int| 0 <= k < p implies #[trigger] t[k] != '{' by {
        assert(t[k] == prefix[k]);
    }
    lemma_literal_chunk(t, p, m);
    assert(t.take(p) =~= prefix);
    assert(t.skip(p) =~= u);
    assert(u[0] == '{');
    assert(u[e as int] == '}');
    assert forall|k: int| 1 <= k < e implies #[trigger] u[k] != '}' by {
        assert(u[k] == name[k - 1]);
    }
    lemma_placeholder_chunk(u, e as int, m);
    assert(u.subrange(1, e as int) =~= name);
    assert(u.skip(e as int + 1) =~= suffix);
    assert forall|k: int| 0 <= k < suffix.len() implies #[trigger] suffix[k] != '{' by {}
    lemma_literal_chunk(suffix, suffix.len() as int, m);
    assert(suffix.skip(suffix.len() as int) =~= Seq::<char>::empty());
    assert(suffix.take(suffix.len() as int) =~= suffix);
    assert(suffix + Seq::<char>::empty() =~= suffix);
    assert(prefix + (param_or_empty(m, name) + suffix) =~= prefix + param_or_empty(m, name)
        + suffix);
}

/// Every operation's template starts with `/`, so its resolved path does
/// too, and the full URL — a normalized base URL followed by the resolved
/// path — holds exactly one slash at the join: the path's leading one.
pub proof fn lemma_operation_url_well_joined(
    base: Seq<char>,
    t: Seq<char>,
    m: Map<Seq<char>, Seq<char>>,
)
    requires
        base.len() > 0 ==> base.last() != '/',
        t.len() > 0,
        t[0] == '/',
    ensures
        resolved(t, m).len() > 0,
        resolved(t, m)[0] == '/',
        (base + resolved(t, m))[base.len() as int] == '/',
        base.len() > 0 ==> (base + resolved(t, m))[base.len() - 1] != '/',
{
    lemma_resolved_starts_with_slash(t, m);
    crate::client::lemma_single_slash_at_join(base, resolved(t, m));
}

/// Resolves `template` against `params`: each `{name}` placeholder becomes
/// the value bound to `name`, or the empty string if `name` is unbound.
/// This is the policy of the operation catalogue; [`resolve_path_strict`]
/// reports unbound placeholders instead.
pub fn resolve_path(template: &str, params: &StringMap) -> (p: String)
    ensures
        p@ == resolved(template@, params@),
{
    let ghost t = template@;
    let ghost m = params@;
    let n = template.unicode_len();
    let mut out = String::new();
    let mut pos: usize = 0;
    proof {
        assert(t.skip(0) =~= t);
    }
    while pos < n
        invariant
            pos <= n,
            n == t.len(),
            t == template@,
            m == params@,
            out@ + resolved(t.skip(pos as int), m) == resolved(t, m),
        decreases n - pos,
    {
        let mut i = pos;
        while i < n && template.get_char(i) != '{'
            invariant
                pos <= i <= n,
                n == t.len(),
                t == template@,
                forall|k: int| pos <= k < i ==> #[trigger] t[k] != '{',
            decreases n - i,
        {
            i = i + 1;
        }
        let ghost out0 = out@;
        let chunk = template.substring_char(pos, i);
        out.append(chunk);
        proof {
            let c = (i - pos) as int;
            let rest = t.skip(pos as int);
            assert forall|k: int| 0 <= k < c implies #[trigger] rest[k] != '{' by {
                assert(rest[k] == t[pos + k]);
            }
            lemma_literal_chunk(rest, c, m);
            assert(rest.take(c) =~= t.subrange(pos as int, i as int));
            assert(rest.skip(c) =~= t.skip(i as int));
            assert((out0 + rest.take(c)) + resolved(t.skip(i as int), m) =~= out0 + (rest.take(c)
                + resolved(t.skip(i as int), m)));
        }
        if i == n {
            pos = i;
        } else {
            let mut j = i + 1;
            while j < n && template.get_char(j) != '}'
                invariant
                    i + 1 <= j <= n,
                    n == t.len(),
                    t == template@,
                    forall|k: int| i + 1 <= k < j ==> #[trigger] t[k] != '}',
                decreases n - j,
            {
                j = j + 1;
            }
            let ghost out1 = out@;
            if j == n {
                let tail = template.substring_char(i, n);
                out.append(tail);
                proof {
                    let u = t.skip(i as int);
                    assert forall|k: int| 1 <= k < u.len() implies #[trigger] u[k] != '}' by {
                        assert(u[k] == t[i + k]);
                    }
                    lemma_unclosed_chunk(u, m);
                    assert(u =~= t.subrange(i as int, n as int));
                    assert(t.skip(n as int) =~= Seq::<char>::empty());
                    assert((out1 + u) + Seq::<char>::empty() =~= out1 + (u + Seq::<char>::empty()));
                    assert(u + Seq::<char>::empty() =~= u);
                }
                pos = n;
            } else {
                let name = template.substring_char(i + 1, j);
                proof {
                    let u = t.skip(i as int);
                    let e = (j - i) as int;
                    assert(u[0] == t[i as int]);
                    assert(u[e] == t[j as int]);
                    assert forall|k: int| 1 <= k < e implies #[trigger] u[k] != '}' by {
                        assert(u[k] == t[i + k]);
                    }
                    lemma_placeholder_chunk(u, e, m);
                    assert(u.subrange(1, e) =~= t.subrange(i + 1, j as int));
                    assert(u.skip(e + 1) =~= t.skip(j + 1));
                }
                match params.get(name) {
                    Some(v) => {
                        out.append(v.as_str());
                        proof {
                            assert(param_or_empty(m, name@) == v@);
                            assert((out1 + v@) + resolved(t.skip(j + 1), m) =~= out1 + (v@
                                + resolved(t.skip(j + 1), m)));
                        }
                    },
                    None => {
                        proof {
                            assert(param_or_empty(m, name@) =~= Seq::<char>::empty());
                            assert(Seq::<char>::empty() + resolved(t.skip(j + 1), m)
                                =~= resolved(t.skip(j + 1), m));
                        }
                    },
                }
                pos = j + 1;
            }
        }
    }
    proof {
        assert(t.skip(pos as int) =~= Seq::<char>::empty());
        assert(out@ + Seq::<char>::empty() =~= out@);
    }
    out
}

/// Scans `template` for a placeholder whose name `params` does not bind,
/// returning the name of one such placeholder, or `None` when every
/// placeholder is bound.
pub fn find_missing_param(template: &str, params: &StringMap) -> (r: Option<String>)
    ensures
        match r {
            None => placeholders(template@).subset_of(params@.dom()),
            Some(name) => placeholders(template@).contains(name@) && !params@.dom().contains(
                name@,
            ),
        },
{
    let ghost t = template@;
    let ghost m = params@;
    let n = template.unicode_len();
    let mut pos: usize = 0;
    proof {
        assert(t.skip(0) =~= t);
    }
    while pos < n
        invariant
            pos <= n,
            n == t.len(),
            t == template@,
            m == params@,
            placeholders(t.skip(pos as int)).subset_of(placeholders(t)),
            placeholders(t.skip(pos as int)).subset_of(m.dom()) ==> placeholders(t).subset_of(
                m.dom(),
            ),
        decreases n - pos,
    {
        let mut i = pos;
        while i < n && template.get_char(i) != '{'
            invariant
                pos <= i <= n,
                n == t.len(),
                t == template@,
                forall|k: int| pos <= k < i ==> #[trigger] t[k] != '{',
            decreases n - i,
        {
            i = i + 1;
        }
        proof {
            let c = (i - pos) as int;
            let rest = t.skip(pos as int);
            assert forall|k: int| 0 <= k < c implies #[trigger] rest[k] != '{' by {
                assert(rest[k] == t[pos + k]);
            }
            lemma_literal_chunk(rest, c, m);
            assert(rest.skip(c) =~= t.skip(i as int));
        }
        if i == n {
            pos = i;
        } else {
            let mut j = i + 1;
            while j < n && template.get_char(j) != '}'
                invariant
                    i + 1 <= j <= n,
                    n == t.len(),
                    t == template@,
                    forall|k: int| i + 1 <= k < j ==> #[trigger] t[k] != '}',
                decreases n - j,
            {
                j = j + 1;
            }
            if j == n {
                proof {
                    let u = t.skip(i as int);
                    assert forall|k: int| 1 <= k < u.len() implies #[trigger] u[k] != '}' by {
                        assert(u[k] == t[i + k]);
                    }
                    lemma_unclosed_chunk(u, m);
                    assert(t.skip(n as int) =~= Seq::<char>::empty());
                }
                pos = n;
            } else {
                let name = template.substring_char(i + 1, j);
                proof {
                    let u = t.skip(i as int);
                    let e = (j - i) as int;
                    assert(u[0] == t[i as int]);
                    assert(u[e] == t[j as int]);
                    assert forall|k: int| 1 <= k < e implies #[trigger] u[k] != '}' by {
                        assert(u[k] == t[i + k]);
                    }
                    lemma_placeholder_chunk(u, e, m);
                    assert(u.subrange(1, e) =~= t.subrange(i + 1, j as int));
                    assert(u.skip(e + 1) =~= t.skip(j + 1));
                    assert(placeholders(t.skip(i as int)).contains(name@));
                }
                if params.get(name).is_none() {
                    return Some(name.to_owned());
                }
                pos = j + 1;
            }
        }
    }
    proof {
        assert(t.skip(pos as int) =~= Seq::<char>::empty());
    }
    None
}

/// Resolves `template` against `params`, failing fast on a missing
/// parameter: the result is the resolved path exactly when every placeholder
/// of the template is bound, and otherwise the name of a missing parameter.
pub fn resolve_path_strict(template: &str, params: &StringMap) -> (r: Result<String, String>)
    ensures
        r is Ok <==> placeholders(template@).subset_of(params@.dom()),
        match r {
            Ok(p) => p@ == resolved(template@, params@),
            Err(name) => placeholders(template@).contains(name@) && !params@.dom().contains(
                name@,
            ),
        },
{
    match find_missing_param(template, params) {
        Some(name) => Err(name),
        None => Ok(resolve_path(template, params)),
    }
}

/// The placeholder part of [`lemma_resolved_no_brace_tokens`].
proof fn lemma_resolved_no_brace_tokens_name(
    u: Seq<char>,
    m: Map<Seq<char>, Seq<char>>,
    name: Seq<char>,
)
    requires
        wf_placeholder_name(u),
        placeholders_name(u, name).subset_of(m.dom()),
        forall|k: Seq<char>| m.dom().contains(k) ==> brace_free(#[trigger] m[k]),
    ensures
        brace_free(resolved_placeholder(u, m, name)),
    decreases u.len(),
{
    if u.len() == 0 {
    } else if u[0] == '}' {
        assert(placeholders_name(u, name).contains(name));
        assert(placeholders(u.skip(1)).subset_of(placeholders_name(u, name)));
        lemma_resolved_no_brace_tokens(u.skip(1), m);
        assert(param_or_empty(m, name) == m[name]);
        lemma_brace_free_concat(param_or_empty(m, name), resolved(u.skip(1), m));
    } else {
        assert(placeholders_name(u.skip(1), name.push(u[0])) == placeholders_name(u, name));
        lemma_resolved_no_brace_tokens_name(u.skip(1), m, name.push(u[0]));
    }
}

} // verus!
