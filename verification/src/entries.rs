//! Lists of entries: which of them are sent, and in what order.

use vstd::prelude::*;
use crate::environment::{pairs_view, resolve, Environment};
use crate::request::{key_values_view, KeyValue, KeyValueView};

verus! {

/// The pair that an entry is sent as: key and value, each resolved.
pub open spec fn resolved_pair(entry: KeyValueView, env: Seq<(Seq<char>, Seq<char>)>) -> (
    Seq<char>,
    Seq<char>,
) {
    (resolve(entry.key, env), resolve(entry.value, env))
}

/// The pairs that a list of entries is sent as: the enabled entries, in the
/// order of the list, each resolved. Equal keys may occur more than once.
pub open spec fn enabled_pairs(entries: Seq<KeyValueView>, env: Seq<(Seq<char>, Seq<char>)>) -> Seq<
    (Seq<char>, Seq<char>),
>
    decreases entries.len(),
{
    if entries.len() == 0 {
        Seq::empty()
    } else if entries.last().enabled {
        enabled_pairs(entries.drop_last(), env).push(resolved_pair(entries.last(), env))
    } else {
        enabled_pairs(entries.drop_last(), env)
    }
}

/// The pairs of two lists, one after the other, are the pairs of the first
/// followed by the pairs of the second: sending keeps the order of entries.
pub proof fn lemma_enabled_pairs_concat(
    first: Seq<KeyValueView>,
    second: Seq<KeyValueView>,
    env: Seq<(Seq<char>, Seq<char>)>,
)
    ensures
        enabled_pairs(first + second, env) == enabled_pairs(first, env) + enabled_pairs(
            second,
            env,
        ),
    decreases second.len(),
{
    if second.len() == 0 {
        assert(first + second =~= first);
        assert(enabled_pairs(first, env) + enabled_pairs(second, env) =~= enabled_pairs(
            first,
            env,
        ));
    } else {
        let both = first + second;
        assert(both.drop_last() =~= first + second.drop_last());
        assert(both.last() == second.last());
        lemma_enabled_pairs_concat(first, second.drop_last(), env);
        if second.last().enabled {
            assert(enabled_pairs(both, env) =~= enabled_pairs(first, env) + enabled_pairs(
                second,
                env,
            ));
        }
    }
}

/// A list of one entry is sent as that entry's pair, or not at all.
pub proof fn lemma_enabled_pairs_single(entry: KeyValueView, env: Seq<(Seq<char>, Seq<char>)>)
    ensures
        enabled_pairs(seq![entry], env) == if entry.enabled {
            seq![resolved_pair(entry, env)]
        } else {
            Seq::empty()
        },
{
    let one = seq![entry];
    assert(one.drop_last() =~= Seq::<KeyValueView>::empty());
    assert(one.last() == entry);
    assert(enabled_pairs(one.drop_last(), env) =~= Seq::<(Seq<char>, Seq<char>)>::empty());
    if entry.enabled {
        assert(enabled_pairs(one, env) =~= seq![resolved_pair(entry, env)]);
    }
}

/// A disabled entry is never sent: with it or without it, a list is sent
/// as the same pairs.
pub proof fn lemma_disabled_entry_is_not_sent(
    entries: Seq<KeyValueView>,
    env: Seq<(Seq<char>, Seq<char>)>,
    at: int,
)
    requires
        0 <= at < entries.len(),
        !entries[at].enabled,
    ensures
        enabled_pairs(entries, env) == enabled_pairs(entries.remove(at), env),
{
    let before = entries.subrange(0, at);
    let after = entries.subrange(at + 1, entries.len() as int);
    let one = seq![entries[at]];
    assert(entries =~= (before + one) + after);
    lemma_enabled_pairs_concat(before + one, after, env);
    lemma_enabled_pairs_concat(before, one, env);
    lemma_enabled_pairs_single(entries[at], env);
    lemma_enabled_pairs_concat(before, after, env);
    assert(enabled_pairs(before, env) + Seq::<(Seq<char>, Seq<char>)>::empty() =~= enabled_pairs(
        before,
        env,
    ));
}

/// Every pair that is sent is the pair of an enabled entry of the list.
pub proof fn lemma_sent_pairs_are_enabled(
    entries: Seq<KeyValueView>,
    env: Seq<(Seq<char>, Seq<char>)>,
    at: int,
)
    requires
        0 <= at < enabled_pairs(entries, env).len(),
    ensures
        exists|from: int|
            0 <= from < entries.len() && (#[trigger] entries[from]).enabled && enabled_pairs(
                entries,
                env,
            )[at] == resolved_pair(entries[from], env),
    decreases entries.len(),
{
    let last = entries.len() - 1;
    let shorter = entries.drop_last();
    if entries.last().enabled && at == enabled_pairs(shorter, env).len() {
        assert(entries[last].enabled);
    } else {
        lemma_sent_pairs_are_enabled(shorter, env, at);
        let from = choose|from: int|
            0 <= from < shorter.len() && (#[trigger] shorter[from]).enabled && enabled_pairs(
                shorter,
                env,
            )[at] == resolved_pair(shorter[from], env);
        assert(entries[from] == shorter[from]);
    }
}

/// Where every entry is enabled, the list is sent entry by entry.
pub proof fn lemma_all_enabled(entries: Seq<KeyValueView>, env: Seq<(Seq<char>, Seq<char>)>)
    requires
        forall|i: int| 0 <= i < entries.len() ==> (#[trigger] entries[i]).enabled,
    ensures
        enabled_pairs(entries, env) == entries.map_values(
            |e: KeyValueView| resolved_pair(e, env),
        ),
    decreases entries.len(),
{
    let sent = entries.map_values(|e: KeyValueView| resolved_pair(e, env));
    if entries.len() == 0 {
        assert(enabled_pairs(entries, env) =~= sent);
    } else {
        let shorter = entries.drop_last();
        assert forall|i: int| 0 <= i < shorter.len() implies (#[trigger] shorter[i]).enabled by {
            assert(entries[i].enabled);
        }
        lemma_all_enabled(shorter, env);
        assert(entries[entries.len() - 1].enabled);
        assert(enabled_pairs(entries, env) =~= sent);
    }
}

impl Environment {
    /// The pairs that `entries` are sent as in this environment: disabled
    /// entries are left out, the others resolved and kept in their order.
    pub fn key_value_vec_to_tuple_vec(&self, entries: &Vec<KeyValue>) -> (pairs: Vec<
        (String, String),
    >)
        ensures
            pairs_view(pairs@) == enabled_pairs(key_values_view(entries@), self@),
    {
        let mut pairs: Vec<(String, String)> = Vec::new();
        let mut i: usize = 0;
        proof {
            assert(key_values_view(entries@).take(0) =~= Seq::<KeyValueView>::empty());
            assert(pairs_view(pairs@) =~= Seq::<(Seq<char>, Seq<char>)>::empty());
        }
        while i < entries.len()
            invariant
                i <= entries.len(),
                pairs_view(pairs@) == enabled_pairs(
                    key_values_view(entries@).take(i as int),
                    self@,
                ),
            decreases entries.len() - i,
        {
            let entry = &entries[i];
            let ghost before = pairs_view(pairs@);
            proof {
                let all = key_values_view(entries@);
                assert(all.take(i + 1).drop_last() =~= all.take(i as int));
                assert(all.take(i + 1).last() == entry@);
            }
            if entry.enabled {
                let key = self.replace_env_keys_by_value(entry.data.0.as_str());
                let value = self.replace_env_keys_by_value(entry.data.1.as_str());
                pairs.push((key, value));
                proof {
                    assert(pairs_view(pairs@) =~= before.push(resolved_pair(entry@, self@)));
                }
            }
            i += 1;
        }
        proof {
            let all = key_values_view(entries@);
            assert(all.take(entries@.len() as int) =~= all);
        }
        pairs
    }
}

} // verus!
