//! Source text with holes. A hole is `#` followed by a name; filling a
//! template puts, in place of each hole, the text that the name is bound
//! to. Everything else stands as it is written, `#` before anything but the
//! start of a name included.

use crate::text::same_text;
use vstd::prelude::*;
use vstd::string::is_ascii_spec_bytes;
use vstd::utf8::is_ascii_chars_nat_bound;

verus! {

/// A name and the text that stands for it.
#[derive(Debug)]
pub struct Binding {
    pub name: String,
    pub value: String,
}

pub struct BindingView {
    pub name: Seq<char>,
    pub value: Seq<char>,
}

impl DeepView for Binding {
    type V = BindingView;

    open spec fn deep_view(&self) -> BindingView {
        BindingView { name: self.name@, value: self.value@ }
    }
}

impl View for Binding {
    type V = BindingView;

    open spec fn view(&self) -> BindingView {
        self.deep_view()
    }
}

/// The binding of `name` to `value`.
pub open spec fn bound(name: Seq<char>, value: Seq<char>) -> BindingView {
    BindingView { name, value }
}

/// No bindings.
pub open spec fn nothing() -> Seq<BindingView> {
    Seq::empty()
}

/// Bindings, one after the other.
pub trait Bindings {
    /// These bindings and after them that of `name` to `value`.
    spec fn with(self, name: Seq<char>, value: Seq<char>) -> Self;
}

impl Bindings for Seq<BindingView> {
    open spec fn with(self, name: Seq<char>, value: Seq<char>) -> Seq<BindingView> {
        self.push(bound(name, value))
    }
}

/// The binding of `name` to `value`.
pub fn bind(name: &str, value: &str) -> (r: Binding)
    ensures
        r@ == bound(name@, value@),
{
    Binding { name: String::from_str(name), value: String::from_str(value) }
}

pub open spec fn is_name_start(c: char) -> bool {
    ('a' <= c && c <= 'z') || ('A' <= c && c <= 'Z') || c == '_'
}

pub open spec fn is_name_char(c: char) -> bool {
    is_name_start(c) || ('0' <= c && c <= '9')
}

/// The length of the run of name characters at the front of `t`.
pub open spec fn name_len(t: Seq<char>) -> nat
    decreases t.len(),
{
    if t.len() > 0 && is_name_char(t[0]) {
        1 + name_len(t.drop_first())
    } else {
        0
    }
}

/// The text that the first binding of `name` gives it; a name that is not
/// bound stands for the hole as it was written.
pub open spec fn value_of(env: Seq<BindingView>, name: Seq<char>) -> Seq<char>
    decreases env.len(),
{
    if env.len() == 0 {
        seq!['#'] + name
    } else if env[0].name == name {
        env[0].value
    } else {
        value_of(env.drop_first(), name)
    }
}

/// Whether a hole opens at the front of `t`.
pub open spec fn at_hole(t: Seq<char>) -> bool {
    t.len() > 1 && t[0] == '#' && is_name_start(t[1])
}

/// The template `t` with every hole filled from `env`.
pub open spec fn filled(t: Seq<char>, env: Seq<BindingView>) -> Seq<char>
    decreases t.len(),
{
    if t.len() == 0 {
        Seq::empty()
    } else if at_hole(t) {
        let n = name_len(t.skip(1)) as int;
        proof {
            lemma_name_len_bound(t.skip(1));
        }
        value_of(env, t.subrange(1, 1 + n)) + filled(t.skip(1 + n), env)
    } else {
        seq![t[0]] + filled(t.drop_first(), env)
    }
}

pub proof fn lemma_name_len_bound(t: Seq<char>)
    ensures
        name_len(t) <= t.len(),
    decreases t.len(),
{
    if t.len() > 0 && is_name_char(t[0]) {
        lemma_name_len_bound(t.drop_first());
    }
}

/// A run of name characters at the front of `t` that stops at `n` is the
/// whole run.
pub proof fn lemma_name_len_is(t: Seq<char>, n: nat)
    requires
        n <= t.len(),
        forall|j: int| 0 <= j < n ==> is_name_char(t[j]),
        n < t.len() ==> !is_name_char(t[n as int]),
    ensures
        name_len(t) == n,
    decreases t.len(),
{
    if n > 0 {
        let rest = t.drop_first();
        assert forall|j: int| 0 <= j < n - 1 implies is_name_char(rest[j]) by {
            assert(rest[j] == t[j + 1]);
        }
        if n - 1 < rest.len() {
            assert(rest[n - 1] == t[n as int]);
        }
        lemma_name_len_is(rest, (n - 1) as nat);
    }
}

/// A template without `#` is filled by being left as it is.
pub proof fn lemma_without_holes(t: Seq<char>, env: Seq<BindingView>)
    requires
        forall|i: int| 0 <= i < t.len() ==> t[i] != '#',
    ensures
        filled(t, env) == t,
    decreases t.len(),
{
    if t.len() > 0 {
        let rest = t.drop_first();
        assert forall|i: int| 0 <= i < rest.len() implies rest[i] != '#' by {
            assert(rest[i] == t[i + 1]);
        }
        lemma_without_holes(rest, env);
        assert(seq![t[0]] + rest =~= t);
    }
}

/// A hole alone is filled with what its name is bound to first.
pub proof fn lemma_hole_alone(name: Seq<char>, value: Seq<char>, env: Seq<BindingView>)
    requires
        name.len() > 0,
        is_name_start(name[0]),
        forall|i: int| 0 <= i < name.len() ==> is_name_char(name[i]),
    ensures
        filled(seq!['#'] + name, seq![bound(name, value)] + env) == value,
{
    let t = seq!['#'] + name;
    let all = seq![bound(name, value)] + env;
    assert(t[1] == name[0]);
    assert(t.skip(1) =~= name);
    lemma_name_len_is(name, name.len());
    assert(t.subrange(1, 1 + name.len() as int) =~= name);
    assert(t.skip(1 + name.len() as int) =~= Seq::<char>::empty());
    assert(all[0] == bound(name, value));
    assert(t[0] == '#');
    assert(at_hole(t));
    assert(name_len(t.skip(1)) == name.len());
    assert(value_of(all, name) == value);
    assert(filled(Seq::<char>::empty(), all) =~= Seq::<char>::empty());
    assert(filled(t, all) =~= value + Seq::<char>::empty());
}

fn name_start(c: char) -> (r: bool)
    ensures
        r == is_name_start(c),
{
    (c >= 'a' && c <= 'z') || (c >= 'A' && c <= 'Z') || c == '_'
}

fn name_char(c: char) -> (r: bool)
    ensures
        r == is_name_char(c),
{
    name_start(c) || (c >= '0' && c <= '9')
}

/// The number of characters of `s`.
fn length(s: &str, ascii: bool) -> (n: usize)
    requires
        ascii ==> s.is_ascii(),
    ensures
        n == s@.len(),
{
    if ascii {
        proof {
            is_ascii_spec_bytes(s);
        }
        s.as_bytes().len()
    } else {
        s.unicode_len()
    }
}

/// The character of `s` at `i`.
fn char_at(s: &str, i: usize, ascii: bool) -> (c: char)
    requires
        ascii ==> s.is_ascii(),
        i < s@.len(),
    ensures
        c == s@[i as int],
{
    if ascii {
        proof {
            is_ascii_chars_nat_bound(s@);
        }
        let b: u8 = s.get_ascii(i);
        b as char
    } else {
        s.get_char(i)
    }
}

/// The characters of `s` from `from` up to `to`.
fn slice<'a>(s: &'a str, from: usize, to: usize, ascii: bool) -> (r: &'a str)
    requires
        ascii ==> s.is_ascii(),
        from <= to <= s@.len(),
    ensures
        r@ == s@.subrange(from as int, to as int),
{
    if ascii {
        s.substring_ascii(from, to)
    } else {
        s.substring_char(from, to)
    }
}

/// The text that the first binding of `name` gives it.
pub fn lookup(env: &Vec<Binding>, name: &str) -> (r: String)
    ensures
        r@ == value_of(env.deep_view(), name@),
{
    let mut i: usize = 0;
    proof {
        assert(env.deep_view().skip(0) =~= env.deep_view());
    }
    while i < env.len()
        invariant
            i <= env.len(),
            value_of(env.deep_view(), name@) == value_of(env.deep_view().skip(i as int), name@),
        decreases env.len() - i,
    {
        proof {
            let rest = env.deep_view().skip(i as int);
            assert(rest[0] == env[i as int]@);
            assert(rest.drop_first() =~= env.deep_view().skip(i + 1));
        }
        if same_text(env[i].name.as_str(), name) {
            return env[i].value.clone();
        }
        i += 1;
    }
    proof {
        assert(env.deep_view().skip(env.len() as int) =~= Seq::<BindingView>::empty());
    }
    let mut out = String::from_str("#");
    out.append(name);
    proof {
        reveal_strlit("#");
        assert("#"@ =~= seq!['#']);
    }
    out
}

/// The template with every hole filled from `env`.
pub fn fill(template: &str, env: &Vec<Binding>) -> (r: String)
    ensures
        r@ == filled(template@, env.deep_view()),
{
    let ascii = template.is_ascii();
    let n: usize = length(template, ascii);
    let ghost t = template@;
    let ghost e = env.deep_view();
    let mut out = String::new();
    let mut start: usize = 0;
    let mut i: usize = 0;
    proof {
        assert(t.skip(0) =~= t);
        assert(out@ + t.subrange(0, 0) + filled(t, e) =~= filled(t, e));
    }
    while i < n
        invariant
            n == t.len(),
            t == template@,
            e == env.deep_view(),
            ascii ==> template.is_ascii(),
            start <= i <= n,
            filled(t, e) == out@ + t.subrange(start as int, i as int) + filled(t.skip(i as int), e),
        decreases n - i,
    {
        let c = char_at(template, i, ascii);
        let ghost rest = t.skip(i as int);
        proof {
            assert(rest[0] == t[i as int]);
            assert(rest.len() == n - i);
        }
        let mut hole = false;
        if c == '#' && i + 1 < n {
            let c1 = char_at(template, i + 1, ascii);
            proof {
                assert(rest[1] == t[i + 1]);
            }
            hole = name_start(c1);
        }
        assert(hole == at_hole(rest));
        if hole {
            let mut j: usize = i + 1;
            while j < n && name_char(char_at(template, j, ascii))
                invariant
                    n == t.len(),
                    t == template@,
                    ascii ==> template.is_ascii(),
                    i + 1 <= j <= n,
                    forall|k: int| i + 1 <= k < j ==> is_name_char(t[k]),
                decreases n - j,
            {
                j += 1;
            }
            let literal = slice(template, start, i, ascii);
            let name = slice(template, i + 1, j, ascii);
            let value = lookup(env, name);
            proof {
                let after = rest.skip(1);
                assert forall|k: int| 0 <= k < j - (i + 1) implies is_name_char(after[k]) by {
                    assert(after[k] == t[i + 1 + k]);
                }
                if j < n {
                    assert(after[j - (i + 1)] == t[j as int]);
                }
                lemma_name_len_is(after, (j - (i + 1)) as nat);
                assert(rest.subrange(1, 1 + (j - (i + 1))) =~= t.subrange(i + 1, j as int));
                assert(rest.skip(1 + (j - (i + 1))) =~= t.skip(j as int));
                assert(t.subrange(j as int, j as int) =~= Seq::<char>::empty());
                assert(out@ + t.subrange(start as int, i as int) + (value@ + filled(
                    t.skip(j as int),
                    e,
                )) =~= out@ + literal@ + value@ + t.subrange(j as int, j as int) + filled(
                    t.skip(j as int),
                    e,
                ));
            }
            out.append(literal);
            out.append(value.as_str());
            start = j;
            i = j;
        } else {
            proof {
                assert(rest.drop_first() =~= t.skip(i + 1));
                assert(t.subrange(start as int, i as int) + seq![t[i as int]] =~= t.subrange(
                    start as int,
                    i + 1,
                ));
                assert(out@ + t.subrange(start as int, i as int) + (seq![t[i as int]] + filled(
                    t.skip(i + 1),
                    e,
                )) =~= out@ + t.subrange(start as int, i + 1) + filled(t.skip(i + 1), e));
            }
            i += 1;
        }
    }
    let literal = slice(template, start, n, ascii);
    proof {
        assert(t.skip(n as int) =~= Seq::<char>::empty());
        assert(out@ + literal@ + Seq::<char>::empty() =~= out@ + literal@);
    }
    out.append(literal);
    out
}

} // verus!
