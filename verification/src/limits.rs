//! The limit on what is handed to the URL parser. The parser counts the
//! positions in a URL in 32 bits, and a text that outgrows them makes it
//! panic instead of failing. So texts are measured first, and one beyond
//! the limit is refused without being parsed. The limit leaves room for
//! everything that parsing adds to a text.

use vstd::prelude::*;
use crate::environment::pairs_view;

verus! {

/// The most characters that a URL text, or the pairs appended to it, may
/// have.
pub const MAX_URL_LENGTH: usize = 1_048_576;

/// Whether a text is short enough to be parsed.
pub open spec fn text_in_reach(text: Seq<char>) -> bool {
    text.len() <= MAX_URL_LENGTH
}

/// The size of a list of pairs: the characters of every key and value, and
/// two more for each pair, for the signs that join them in a query.
pub open spec fn pairs_size(pairs: Seq<(Seq<char>, Seq<char>)>) -> nat
    decreases pairs.len(),
{
    if pairs.len() == 0 {
        0
    } else {
        pairs_size(pairs.drop_last()) + pairs.last().0.len() + pairs.last().1.len() + 2
    }
}

/// Whether a URL text and the pairs for its query are short enough to be
/// parsed.
pub open spec fn url_in_reach(url: Seq<char>, params: Seq<(Seq<char>, Seq<char>)>) -> bool {
    text_in_reach(url) && pairs_size(params) <= MAX_URL_LENGTH
}

/// The first pairs of a list are no larger than the whole list.
pub proof fn lemma_pairs_size_grows(pairs: Seq<(Seq<char>, Seq<char>)>, count: int)
    requires
        0 <= count <= pairs.len(),
    ensures
        pairs_size(pairs.take(count)) <= pairs_size(pairs),
    decreases pairs.len(),
{
    if count == pairs.len() {
        assert(pairs.take(count) =~= pairs);
    } else {
        assert(pairs.take(count) =~= pairs.drop_last().take(count));
        lemma_pairs_size_grows(pairs.drop_last(), count);
    }
}

/// Whether a text is short enough to be parsed.
pub fn is_text_in_reach(text: &str) -> (fits: bool)
    ensures
        fits == text_in_reach(text@),
{
    text.unicode_len() <= MAX_URL_LENGTH
}

/// Whether the pairs are small enough to be appended to a URL.
pub fn are_pairs_in_reach(pairs: &Vec<(String, String)>) -> (fit: bool)
    ensures
        fit == (pairs_size(pairs_view(pairs@)) <= MAX_URL_LENGTH),
{
    let ghost all = pairs_view(pairs@);
    let mut total: usize = 0;
    let mut i: usize = 0;
    proof {
        assert(all.take(0) =~= Seq::<(Seq<char>, Seq<char>)>::empty());
    }
    while i < pairs.len()
        invariant
            i <= pairs.len(),
            all == pairs_view(pairs@),
            total == pairs_size(all.take(i as int)),
            total <= MAX_URL_LENGTH,
        decreases pairs.len() - i,
    {
        let key = pairs[i].0.as_str().unicode_len();
        let value = pairs[i].1.as_str().unicode_len();
        proof {
            let now = all.take(i + 1);
            assert(now.drop_last() =~= all.take(i as int));
            assert(now.last() == (pairs@[i as int].0@, pairs@[i as int].1@));
            assert(pairs_size(now) == total + key + value + 2);
            lemma_pairs_size_grows(all, i + 1);
        }
        if key > MAX_URL_LENGTH || value > MAX_URL_LENGTH || total + key + value + 2
            > MAX_URL_LENGTH {
            return false;
        }
        total = total + key + value + 2;
        i += 1;
    }
    proof {
        assert(all.take(pairs@.len() as int) =~= all);
    }
    true
}

/// Whether a URL text and the pairs for its query are short enough to be
/// parsed.
pub fn is_url_in_reach(url: &str, params: &Vec<(String, String)>) -> (fits: bool)
    ensures
        fits == url_in_reach(url@, pairs_view(params@)),
{
    is_text_in_reach(url) && are_pairs_in_reach(params)
}

} // verus!
