//! The environment: an ordered list of variables, and the substitution of
//! `{{NAME}}` placeholders by their values.

use vstd::prelude::*;
use crate::text::{chars_of, contains, matches_at, occurs_at, push_all, string_of};

verus! {

/// An ordered list of variables. Substitution applies them one after the
/// other, in this order.
#[derive(Debug, PartialEq, Eq)]
pub struct Environment {
    pub values: Vec<(String, String)>,
}

/// The mathematical content of a list of string pairs.
pub open spec fn pairs_view(pairs: Seq<(String, String)>) -> Seq<(Seq<char>, Seq<char>)> {
    pairs.map_values(|p: (String, String)| (p.0@, p.1@))
}

impl View for Environment {
    type V = Seq<(Seq<char>, Seq<char>)>;

    open spec fn view(&self) -> Seq<(Seq<char>, Seq<char>)> {
        pairs_view(self.values@)
    }
}

/// The two characters that open a placeholder.
pub open spec fn opening() -> Seq<char> {
    seq!['{', '{']
}

/// The placeholder that stands for the variable `name`: `{{name}}`.
pub open spec fn placeholder(name: Seq<char>) -> Seq<char> {
    opening() + name + seq!['}', '}']
}

/// `text` with every occurrence of `pat` replaced by `with`, reading from
/// the left; occurrences do not overlap. An empty `pat` replaces nothing.
pub open spec fn replace_all(text: Seq<char>, pat: Seq<char>, with: Seq<char>) -> Seq<char>
    decreases text.len(),
{
    if pat.len() == 0 || text.len() < pat.len() {
        text
    } else if occurs_at(text, pat, 0) {
        with + replace_all(text.skip(pat.len() as int), pat, with)
    } else {
        seq![text[0]] + replace_all(text.skip(1), pat, with)
    }
}

/// `text` after the variables of `values` were substituted, first to last.
pub open spec fn resolve(text: Seq<char>, values: Seq<(Seq<char>, Seq<char>)>) -> Seq<char>
    decreases values.len(),
{
    if values.len() == 0 {
        text
    } else {
        resolve(replace_all(text, placeholder(values[0].0), values[0].1), values.skip(1))
    }
}

/// One step of `replace_all` at a position where `pat` does not occur.
proof fn lemma_replace_skip_one(text: Seq<char>, pat: Seq<char>, with: Seq<char>)
    requires
        text.len() > 0,
        pat.len() > 0,
        !occurs_at(text, pat, 0),
    ensures
        replace_all(text, pat, with) == seq![text[0]] + replace_all(text.skip(1), pat, with),
{
    if text.len() < pat.len() {
        assert(replace_all(text.skip(1), pat, with) == text.skip(1));
        assert(text =~= seq![text[0]] + text.skip(1));
    }
}

/// Replacing a pattern that does not occur changes nothing.
pub proof fn lemma_replace_absent(text: Seq<char>, pat: Seq<char>, with: Seq<char>)
    requires
        !contains(text, pat),
    ensures
        replace_all(text, pat, with) == text,
    decreases text.len(),
{
    if pat.len() == 0 || text.len() < pat.len() {
    } else {
        assert(!occurs_at(text, pat, 0));
        let rest = text.skip(1);
        assert forall|at: int| !occurs_at(rest, pat, at) by {
            if occurs_at(rest, pat, at) {
                assert(text.subrange(at + 1, at + 1 + pat.len()) =~= rest.subrange(
                    at,
                    at + pat.len(),
                ));
                assert(occurs_at(text, pat, at + 1));
            }
        }
        lemma_replace_absent(rest, pat, with);
        assert(text =~= seq![text[0]] + rest);
    }
}

/// A text that nowhere holds the opening `{{` holds no placeholder.
proof fn lemma_no_opening_no_placeholder(text: Seq<char>, name: Seq<char>)
    requires
        !contains(text, opening()),
    ensures
        !contains(text, placeholder(name)),
{
    let pat = placeholder(name);
    assert forall|at: int| !occurs_at(text, pat, at) by {
        if occurs_at(text, pat, at) {
            let window = text.subrange(at, at + pat.len());
            assert(window[0] == '{' && window[1] == '{');
            assert(text.subrange(at, at + 2) =~= opening());
            assert(occurs_at(text, opening(), at));
        }
    }
}

/// Substitution leaves a text without placeholders as it is: where `{{`
/// does not occur in `text`, resolving `text` gives `text`, whatever the
/// variables are.
pub proof fn lemma_resolve_without_placeholder(
    text: Seq<char>,
    values: Seq<(Seq<char>, Seq<char>)>,
)
    requires
        !contains(text, opening()),
    ensures
        resolve(text, values) == text,
    decreases values.len(),
{
    if values.len() > 0 {
        lemma_no_opening_no_placeholder(text, values[0].0);
        lemma_replace_absent(text, placeholder(values[0].0), values[0].1);
        lemma_resolve_without_placeholder(text, values.skip(1));
    }
}

/// With no variables, substitution is the identity.
pub proof fn lemma_resolve_empty_environment(text: Seq<char>)
    ensures
        resolve(text, Seq::empty()) == text,
{
}

/// `text` with every occurrence of `pat` replaced by `with`, as
/// `replace_all` defines it.
pub fn replace_chars(text: &Vec<char>, pat: &Vec<char>, with: &Vec<char>) -> (out: Vec<char>)
    ensures
        out@ == replace_all(text@, pat@, with@),
{
    let mut out: Vec<char> = Vec::new();
    if pat.len() == 0 {
        push_all(&mut out, text);
        proof {
            assert(out@ =~= text@);
        }
        return out;
    }
    let mut i: usize = 0;
    proof {
        assert(text@.skip(0) =~= text@);
        assert(out@ + replace_all(text@, pat@, with@) =~= replace_all(text@, pat@, with@));
    }
    while i < text.len()
        invariant
            i <= text.len(),
            pat.len() > 0,
            out@ + replace_all(text@.skip(i as int), pat@, with@) == replace_all(
                text@,
                pat@,
                with@,
            ),
        decreases text.len() - i,
    {
        let ghost rest = text@.skip(i as int);
        let found = matches_at(text, pat, i);
        proof {
            if i + pat@.len() <= text@.len() {
                assert(rest.subrange(0, pat@.len() as int) =~= text@.subrange(
                    i as int,
                    i + pat@.len(),
                ));
            }
            assert(found == occurs_at(rest, pat@, 0));
        }
        if found {
            push_all(&mut out, with);
            proof {
                assert(rest.skip(pat@.len() as int) =~= text@.skip(i + pat@.len()));
            }
            i += pat.len();
        } else {
            out.push(text[i]);
            proof {
                lemma_replace_skip_one(rest, pat@, with@);
                assert(rest.skip(1) =~= text@.skip(i + 1));
            }
            i += 1;
        }
    }
    proof {
        assert(text@.skip(text@.len() as int) =~= Seq::<char>::empty());
        assert(out@ + Seq::<char>::empty() =~= out@);
    }
    out
}

impl Environment {
    /// An environment without variables.
    pub fn new() -> (env: Environment)
        ensures
            env@ == Seq::<(Seq<char>, Seq<char>)>::empty(),
    {
        let env = Environment { values: Vec::new() };
        proof {
            assert(env@ =~= Seq::<(Seq<char>, Seq<char>)>::empty());
        }
        env
    }

    /// Substitutes the placeholders of `text`: for each variable in turn,
    /// every `{{name}}` becomes the variable's value. A placeholder whose
    /// name is no variable stays as it is.
    pub fn replace_env_keys_by_value(&self, text: &str) -> (out: String)
        ensures
            out@ == resolve(text@, self@),
    {
        let mut current: Vec<char> = chars_of(text);
        let mut i: usize = 0;
        proof {
            assert(self@.skip(0) =~= self@);
        }
        while i < self.values.len()
            invariant
                i <= self.values.len(),
                resolve(current@, self@.skip(i as int)) == resolve(text@, self@),
            decreases self.values.len() - i,
        {
            let name = chars_of(self.values[i].0.as_str());
            let value = chars_of(self.values[i].1.as_str());
            let mut pat: Vec<char> = Vec::new();
            pat.push('{');
            pat.push('{');
            push_all(&mut pat, &name);
            pat.push('}');
            pat.push('}');
            proof {
                let rest = self@.skip(i as int);
                assert(rest[0] == (name@, value@));
                assert(pat@ =~= placeholder(name@));
                assert(rest.skip(1) =~= self@.skip(i + 1));
            }
            current = replace_chars(&current, &pat, &value);
            i += 1;
        }
        string_of(&current)
    }
}

} // verus!
