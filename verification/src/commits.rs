//! Finding commit identifiers in the text of a log.
//!
//! A log mentions a commit where the word `commit` and one space are followed
//! by a token of 5 to 40 lower-case hexadecimal digits that ends at white
//! space or at the end of the text.

use vstd::prelude::*;
use crate::text::{char_is_whitespace, chars_of, is_whitespace, string_of};

verus! {

/// The fewest digits an identifier may have.
pub const MIN_ID_LEN: usize = 5;

/// The most digits an identifier may have.
pub const MAX_ID_LEN: usize = 40;

/// The length of the keyword that introduces an identifier.
pub const KEYWORD_LEN: usize = 7;

/// The digits `0` to `9` and the letters `a` to `f`.
pub open spec fn is_hex_digit(c: char) -> bool {
    let v = c as u32;
    (0x30 <= v <= 0x39) || (0x61 <= v <= 0x66)
}

/// A commit identifier: 5 to 40 hexadecimal digits.
pub open spec fn is_commit_id(s: Seq<char>) -> bool {
    &&& MIN_ID_LEN <= s.len() <= MAX_ID_LEN
    &&& forall|i: int| 0 <= i < s.len() ==> is_hex_digit(#[trigger] s[i])
}

/// The word `commit` and the space behind it.
pub open spec fn keyword() -> Seq<char> {
    seq!['c', 'o', 'm', 'm', 'i', 't', ' ']
}

/// The keyword stands in `text` at position `p`.
pub open spec fn keyword_at(text: Seq<char>, p: int) -> bool {
    &&& 0 <= p
    &&& p + KEYWORD_LEN <= text.len()
    &&& text.subrange(p, p + KEYWORD_LEN) == keyword()
}

/// The number of hexadecimal digits that follow one another from position `q` on.
pub open spec fn hex_run(text: Seq<char>, q: int) -> nat
    decreases text.len() - q,
{
    if 0 <= q < text.len() && is_hex_digit(text[q]) {
        1 + hex_run(text, q + 1)
    } else {
        0
    }
}

/// `text[q..q + len]` is a token of hexadecimal digits: every character of it
/// is a digit, and white space or the end of the text follows it.
pub open spec fn hex_token_at(text: Seq<char>, q: int, len: int) -> bool {
    &&& 0 <= q
    &&& 0 <= len
    &&& q + len <= text.len()
    &&& forall|i: int| q <= i < q + len ==> is_hex_digit(#[trigger] text[i])
    &&& (q + len == text.len() || is_whitespace(text[q + len]))
}

/// The text mentions a commit at position `p`: the keyword stands there, and a
/// token of 5 to 40 hexadecimal digits follows it.
pub open spec fn mention_at(text: Seq<char>, p: int) -> bool {
    let q = p + KEYWORD_LEN;
    let len = hex_run(text, q);
    &&& keyword_at(text, p)
    &&& MIN_ID_LEN <= len <= MAX_ID_LEN
    &&& (q + len == text.len() || is_whitespace(text[q + len]))
}

/// The identifier of the mention at position `p`.
pub open spec fn id_at(text: Seq<char>, p: int) -> Seq<char> {
    let q = p + KEYWORD_LEN;
    text.subrange(q, q + hex_run(text, q))
}

/// The positions below `end` at which `text` mentions a commit, in rising order.
pub open spec fn mention_positions_before(text: Seq<char>, end: int) -> Seq<int>
    decreases end,
{
    if end <= 0 {
        Seq::empty()
    } else {
        let earlier = mention_positions_before(text, end - 1);
        if mention_at(text, end - 1) {
            earlier.push(end - 1)
        } else {
            earlier
        }
    }
}

/// Every position at which `text` mentions a commit, in rising order.
pub open spec fn mention_positions(text: Seq<char>) -> Seq<int> {
    mention_positions_before(text, text.len() as int)
}

/// The identifiers that `text` mentions, one for each mention, in the order
/// of the mentions.
pub open spec fn mentioned_ids(text: Seq<char>) -> Seq<Seq<char>> {
    mention_positions(text).map_values(|p: int| id_at(text, p))
}

/// The identifier of a commit, as a log shows it: 5 to 40 hexadecimal digits.
/// Nothing says that the repository holds such a commit.
pub struct CommitId {
    digits: String,
}

impl View for CommitId {
    type V = Seq<char>;

    closed spec fn view(&self) -> Seq<char> {
        self.digits@
    }
}

impl CommitId {
    /// The digits are those of an identifier.
    #[verifier::type_invariant]
    spec fn well_formed(&self) -> bool {
        is_commit_id(self.digits@)
    }

    /// Takes `text` for an identifier if it is one.
    pub fn parse(text: &str) -> (id: Option<CommitId>)
        ensures
            id is Some <==> is_commit_id(text@),
            id matches Some(c) ==> c@ == text@,
    {
        let chars = chars_of(text);
        let n = chars.len();
        if n < MIN_ID_LEN || n > MAX_ID_LEN {
            return None;
        }
        let mut i: usize = 0;
        while i < n
            invariant
                i <= n == chars.len(),
                chars@ == text@,
                forall|j: int| 0 <= j < i ==> is_hex_digit(#[trigger] chars@[j]),
            decreases n - i,
        {
            if !char_is_hex_digit(chars[i]) {
                assert(!is_hex_digit(text@[i as int]));
                return None;
            }
            i += 1;
        }
        let digits = string_of(&chars, 0, n);
        assert(digits@ == text@);
        Some(CommitId { digits })
    }

    /// The digits of the identifier.
    pub fn as_str(&self) -> (digits: &str)
        ensures
            digits@ == self@,
            is_commit_id(self@),
    {
        proof {
            use_type_invariant(self);
        }
        self.digits.as_str()
    }
}

impl Clone for CommitId {
    fn clone(&self) -> (copy: Self)
        ensures
            copy@ == self@,
    {
        proof {
            use_type_invariant(self);
        }
        CommitId { digits: self.digits.clone() }
    }
}

/// Tells whether `c` is a hexadecimal digit.
pub fn char_is_hex_digit(c: char) -> (b: bool)
    ensures
        b == is_hex_digit(c),
{
    let v: u32 = c as u32;
    (0x30 <= v && v <= 0x39) || (0x61 <= v && v <= 0x66)
}

/// Tells whether the keyword stands in `chars` at position `p`.
fn keyword_stands_at(chars: &Vec<char>, p: usize) -> (b: bool)
    ensures
        b == keyword_at(chars@, p as int),
{
    if chars.len() < KEYWORD_LEN || p > chars.len() - KEYWORD_LEN {
        return false;
    }
    let b = chars[p] == 'c' && chars[p + 1] == 'o' && chars[p + 2] == 'm' && chars[p + 3] == 'm'
        && chars[p + 4] == 'i' && chars[p + 5] == 't' && chars[p + 6] == ' ';
    proof {
        let part = chars@.subrange(p as int, p + KEYWORD_LEN);
        if b {
            assert(part =~= keyword());
        } else {
            assert(part[0] == chars@[p as int]);
            assert(part[1] == chars@[p + 1]);
            assert(part[2] == chars@[p + 2]);
            assert(part[3] == chars@[p + 3]);
            assert(part[4] == chars@[p + 4]);
            assert(part[5] == chars@[p + 5]);
            assert(part[6] == chars@[p + 6]);
        }
    }
    b
}

/// Counts the hexadecimal digits from position `q` on, and stops counting at
/// one more than an identifier may have.
fn count_hex_digits(chars: &Vec<char>, q: usize) -> (n: usize)
    requires
        q <= chars.len(),
    ensures
        n <= MAX_ID_LEN + 1,
        q + n <= chars.len(),
        hex_run(chars@, q as int) <= MAX_ID_LEN ==> n == hex_run(chars@, q as int),
        hex_run(chars@, q as int) > MAX_ID_LEN ==> n == MAX_ID_LEN + 1,
{
    let mut n: usize = 0;
    while n <= MAX_ID_LEN && q + n < chars.len() && char_is_hex_digit(chars[q + n])
        invariant
            n <= MAX_ID_LEN + 1,
            q + n <= chars.len(),
            hex_run(chars@, q as int) == n + hex_run(chars@, q + n),
        decreases MAX_ID_LEN + 1 - n,
    {
        n += 1;
    }
    n
}

/// The identifier of the commit that `chars` mentions at position `p`, if it
/// mentions one there.
fn id_mentioned_at(chars: &Vec<char>, p: usize) -> (id: Option<CommitId>)
    requires
        p < chars.len(),
    ensures
        id is Some <==> mention_at(chars@, p as int),
        id matches Some(c) ==> c@ == id_at(chars@, p as int),
{
    if !keyword_stands_at(chars, p) {
        return None;
    }
    let q = p + KEYWORD_LEN;
    let n = count_hex_digits(chars, q);
    if n < MIN_ID_LEN || n > MAX_ID_LEN {
        return None;
    }
    if q + n < chars.len() && !char_is_whitespace(chars[q + n]) {
        return None;
    }
    let digits = string_of(chars, q, q + n);
    proof {
        lemma_hex_run_is_maximal(chars@, q as int);
    }
    Some(CommitId { digits })
}

/// The digits of the identifiers of a vector.
pub open spec fn id_views(ids: Seq<CommitId>) -> Seq<Seq<char>> {
    ids.map_values(|c: CommitId| c@)
}

/// Finds the commits that `log` mentions: one identifier for each mention, in
/// the order in which the mentions stand in the log. A commit that the log
/// mentions twice is returned twice.
pub fn extract_commits(log: &str) -> (ids: Vec<CommitId>)
    ensures
        id_views(ids@) == mentioned_ids(log@),
        forall|k: int| 0 <= k < ids.len() ==> is_commit_id(#[trigger] ids[k]@),
{
    let chars = chars_of(log);
    let mut ids: Vec<CommitId> = Vec::new();
    let mut p: usize = 0;
    while p < chars.len()
        invariant
            p <= chars.len(),
            chars@ == log@,
            id_views(ids@) == mention_positions_before(chars@, p as int).map_values(
                |p: int| id_at(chars@, p),
            ),
        decreases chars.len() - p,
    {
        let ghost before = ids@;
        if let Some(id) = id_mentioned_at(&chars, p) {
            ids.push(id);
            assert(id_views(ids@) =~= id_views(before).push(id@));
        }
        p += 1;
    }
    proof {
        lemma_mentions_in_order_of_appearance(log@);
        assert forall|k: int| 0 <= k < ids.len() implies is_commit_id(#[trigger] ids[k]@) by {
            assert(id_views(ids@)[k] == ids[k]@);
        }
    }
    ids
}

/// The run of digits from `q` on lies inside the text, holds digits only, and
/// cannot be made longer.
pub proof fn lemma_hex_run_is_maximal(text: Seq<char>, q: int)
    requires
        0 <= q <= text.len(),
    ensures
        q + hex_run(text, q) <= text.len(),
        forall|i: int| q <= i < q + hex_run(text, q) ==> is_hex_digit(#[trigger] text[i]),
        q + hex_run(text, q) == text.len() || !is_hex_digit(text[q + hex_run(text, q)]),
    decreases text.len() - q,
{
    if q < text.len() && is_hex_digit(text[q]) {
        lemma_hex_run_is_maximal(text, q + 1);
    }
}

/// A token of hexadecimal digits is the whole run of digits at its position.
pub proof fn lemma_hex_token_is_run(text: Seq<char>, q: int, len: int)
    requires
        hex_token_at(text, q, len),
    ensures
        hex_run(text, q) == len,
    decreases len,
{
    if len > 0 {
        assert(is_hex_digit(text[q]));
        assert forall|i: int| q + 1 <= i < q + 1 + (len - 1) implies is_hex_digit(
            #[trigger] text[i],
        ) by {}
        lemma_hex_token_is_run(text, q + 1, len - 1);
    }
}

/// A token shorter than 5 or longer than 40 digits is no mention, whatever
/// stands around it: its position is not among the positions found, and the
/// identifier of every mention has 5 to 40 digits.
pub proof fn lemma_token_length_is_bounded(text: Seq<char>, p: int, len: int)
    requires
        keyword_at(text, p),
        hex_token_at(text, p + KEYWORD_LEN, len),
    ensures
        mention_at(text, p) <==> MIN_ID_LEN <= len <= MAX_ID_LEN,
        mention_positions(text).contains(p) <==> MIN_ID_LEN <= len <= MAX_ID_LEN,
{
    lemma_hex_token_is_run(text, p + KEYWORD_LEN, len);
    lemma_positions_are_mentions(text, text.len() as int);
}

/// The positions found below `end` are exactly the mentions below `end`, each
/// once, in rising order.
pub proof fn lemma_positions_are_mentions(text: Seq<char>, end: int)
    requires
        end <= text.len(),
    ensures
        forall|k: int|
            0 <= k < mention_positions_before(text, end).len() ==> {
                let p = #[trigger] mention_positions_before(text, end)[k];
                0 <= p < end && mention_at(text, p)
            },
        forall|j: int, k: int|
            0 <= j < k < mention_positions_before(text, end).len() ==> mention_positions_before(
                text,
                end,
            )[j] < mention_positions_before(text, end)[k],
        forall|p: int|
            0 <= p < end && mention_at(text, p) ==> mention_positions_before(text, end).contains(
                p,
            ),
        forall|p: int|
            mention_positions_before(text, end).contains(p) ==> 0 <= p < end && mention_at(
                text,
                p,
            ),
    decreases end,
{
    if end > 0 {
        lemma_positions_are_mentions(text, end - 1);
        let earlier = mention_positions_before(text, end - 1);
        let all = mention_positions_before(text, end);
        assert forall|p: int| 0 <= p < end && mention_at(text, p) implies all.contains(p) by {
            if p == end - 1 {
                assert(all[all.len() - 1] == p);
            } else {
                let k = choose|k: int| 0 <= k < earlier.len() && earlier[k] == p;
                assert(all[k] == p);
            }
        }
    }
}

/// Every mention is found, in the order in which the mentions stand in the
/// text, and a commit that is mentioned twice is found twice: the identifiers
/// found are those at the positions of the mentions, which rise strictly.
pub proof fn lemma_mentions_in_order_of_appearance(text: Seq<char>)
    ensures
        mentioned_ids(text).len() == mention_positions(text).len(),
        forall|k: int|
            0 <= k < mention_positions(text).len() ==> {
                let p = #[trigger] mention_positions(text)[k];
                &&& mention_at(text, p)
                &&& mentioned_ids(text)[k] == id_at(text, p)
                &&& is_commit_id(mentioned_ids(text)[k])
            },
        forall|j: int, k: int|
            0 <= j < k < mention_positions(text).len() ==> mention_positions(text)[j]
                < mention_positions(text)[k],
        forall|p: int| mention_at(text, p) <==> mention_positions(text).contains(p),
{
    lemma_positions_are_mentions(text, text.len() as int);
    assert forall|k: int| 0 <= k < mention_positions(text).len() implies is_commit_id(
        #[trigger] mentioned_ids(text)[k],
    ) by {
        let p = mention_positions(text)[k];
        lemma_hex_run_is_maximal(text, p + KEYWORD_LEN);
    }
}

} // verus!
