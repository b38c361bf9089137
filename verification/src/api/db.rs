//! The tweets read from the service's tweets table.
use vstd::prelude::*;

use crate::api::Tweet;

verus! {

/// Whether every row could be read into a tweet.
pub open spec fn all_read(rows: Seq<Option<Tweet>>) -> bool {
    forall|i: int| 0 <= i < rows.len() ==> #[trigger] rows[i] is Some
}

/// The rows all read exactly when each of them, however many there are, is a tweet.
pub proof fn lemma_all_read_exactly(rows: Seq<Option<Tweet>>)
    ensures
        all_read(rows) <==> forall|i: int| 0 <= i < rows.len() ==> #[trigger] rows[i] is Some,
{
}

/// All stored tweets, given the rows that the tweets query returned (newest first),
/// each read into a tweet or `None` where reading it failed. When every row was
/// read, the result holds one tweet per row, in the same order; when some row could
/// not be read, there is no result, and no tweet is left out silently.
pub fn get_tweets(rows: Vec<Option<Tweet>>) -> (tweets: Option<Vec<Tweet>>)
    ensures
        tweets is Some <==> all_read(rows@),
        (forall|i: int| 0 <= i < rows@.len() ==> #[trigger] rows@[i] is Some) ==> tweets is Some,
        tweets is Some ==> forall|i: int| 0 <= i < rows@.len() ==> #[trigger] rows@[i] is Some,
        tweets matches Some(v) ==> v@.len() == rows@.len() && forall|i: int|
            0 <= i < rows@.len() ==> rows@[i] == Some(#[trigger] v@[i]),
{
    let ghost all = rows@;
    let mut tweets: Vec<Tweet> = Vec::new();
    for row in it: rows.into_iter()
        invariant
            it.seq() == all,
            tweets@.len() == it.index(),
            forall|i: int| 0 <= i < it.index() ==> all[i] == Some(#[trigger] tweets@[i]),
    {
        match row {
            Some(t) => tweets.push(t),
            None => {
                assert(!(all[it.index() as int] is Some));
                return None;
            },
        }
    }
    assert forall|i: int| 0 <= i < all.len() implies #[trigger] all[i] is Some by {
        assert(all[i] == Some(tweets@[i]));
    }
    Some(tweets)
}

} // verus!
