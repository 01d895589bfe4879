//! The flag convention shared by every command: a token that begins with a
//! dash switches on each character that follows the dash.

use crate::text::{chars_of, views};
use std::collections::HashMap;
use vstd::prelude::*;

verus! {

broadcast use vstd::std_specs::hash::group_hash_axioms;

/// Whether some token of `tokens` begins with `-` and holds `c` after the dash.
pub open spec fn flagged(tokens: Seq<Seq<char>>, c: char) -> bool {
    exists|i: int, j: int|
        0 <= i < tokens.len() && 1 <= j < tokens[i].len() && tokens[i][0] == '-'
            && #[trigger] tokens[i][j] == c
}

/// The flags that an argument list switches on.
pub open spec fn flag_set(tokens: Seq<Seq<char>>) -> Set<char> {
    Set::new(|c: char| flagged(tokens, c))
}

/// Flags accumulate: two argument lists in a row set what either sets.
pub proof fn lemma_flags_accumulate(first: Seq<Seq<char>>, second: Seq<Seq<char>>)
    ensures
        flag_set(first + second) == flag_set(first).union(flag_set(second)),
{
    let both = first + second;
    assert forall|c: char| flagged(both, c) <==> (flagged(first, c) || flagged(second, c)) by {
        if flagged(both, c) {
            let (i, j) = choose|i: int, j: int|
                0 <= i < both.len() && 1 <= j < both[i].len() && both[i][0] == '-'
                    && #[trigger] both[i][j] == c;
            if i < first.len() {
                assert(first[i][j] == c);
            } else {
                assert(second[i - first.len()][j] == c);
            }
        }
        if flagged(first, c) {
            let (i, j) = choose|i: int, j: int|
                0 <= i < first.len() && 1 <= j < first[i].len() && first[i][0] == '-'
                    && #[trigger] first[i][j] == c;
            assert(both[i][j] == c);
        }
        if flagged(second, c) {
            let (i, j) = choose|i: int, j: int|
                0 <= i < second.len() && 1 <= j < second[i].len() && second[i][0] == '-'
                    && #[trigger] second[i][j] == c;
            assert(both[i + first.len()][j] == c);
        }
    }
    assert(flag_set(both) =~= flag_set(first).union(flag_set(second)));
}

/// The order of the arguments is irrelevant to the flags they set.
pub proof fn lemma_flags_ignore_order(first: Seq<Seq<char>>, second: Seq<Seq<char>>)
    ensures
        flag_set(first + second) == flag_set(second + first),
{
    lemma_flags_accumulate(first, second);
    lemma_flags_accumulate(second, first);
    assert(flag_set(first).union(flag_set(second)) =~= flag_set(second).union(flag_set(first)));
}

/// A token that does not begin with a dash, and a dash alone, set nothing.
pub proof fn lemma_only_dashed_tokens_set_flags(token: Seq<char>)
    requires
        token.len() == 0 || token[0] != '-' || token.len() == 1,
    ensures
        flag_set(seq![token]) == Set::<char>::empty(),
{
    assert forall|c: char| !flagged(seq![token], c) by {
        if flagged(seq![token], c) {
            let (i, j) = choose|i: int, j: int|
                0 <= i < seq![token].len() && 1 <= j < seq![token][i].len() && seq![token][i][0]
                    == '-' && #[trigger] seq![token][i][j] == c;
            assert(seq![token][i] == token);
        }
    }
    assert(flag_set(seq![token]) =~= Set::<char>::empty());
}

/// Whether a map keyed by code points holds the character `c`.
spec fn holds(m: Map<u32, bool>, c: char) -> bool {
    m.contains_key(c as u32)
}

/// A character is told apart from every other by its code point.
proof fn lemma_code_point_identifies(c: char, d: char)
    ensures
        d as u32 == c as u32 ==> d == c,
{
}

/// The flags that one invocation's arguments switch on.
pub struct ArgInfo {
    /// Keyed by the flag's code point; a key is present exactly when the flag is set.
    _flags: HashMap<u32, bool>,
}

impl View for ArgInfo {
    type V = Set<char>;

    closed spec fn view(&self) -> Set<char> {
        Set::new(|c: char| holds(self._flags@, c))
    }
}

impl ArgInfo {
    /// Reads the flags out of `args`. Tokens that do not begin with a dash set
    /// nothing, a lone dash sets nothing, and the order of tokens is irrelevant.
    pub fn new(args: &Vec<&str>) -> (info: ArgInfo)
        ensures
            info@ == flag_set(views(args@)),
    {
        let ghost tokens = views(args@);
        let mut map: HashMap<u32, bool> = HashMap::new();
        let mut i: usize = 0;
        while i < args.len()
            invariant
                i <= args.len(),
                tokens == views(args@),
                forall|c: char| #[trigger] holds(map@, c) <==> flagged(tokens.take(i as int), c),
            decreases args.len() - i,
        {
            let chars = chars_of(args[i]);
            let ghost before = map@;
            assert(chars@ == tokens[i as int]);
            if chars.len() > 0 && chars[0] == '-' {
                let mut j: usize = 1;
                while j < chars.len()
                    invariant
                        1 <= j <= chars.len(),
                        chars@ == tokens[i as int],
                        chars@[0] == '-',
                        forall|c: char| #[trigger]
                            holds(map@, c) <==> (holds(before, c) || exists|k: int|
                                1 <= k < j && #[trigger] chars@[k] == c),
                    decreases chars.len() - j,
                {
                    let ghost earlier = map@;
                    let flag = chars[j];
                    map.insert(flag as u32, true);
                    proof {
                        assert forall|c: char| #[trigger]
                            holds(map@, c) <==> (holds(before, c) || exists|k: int|
                                1 <= k < j + 1 && #[trigger] chars@[k] == c) by {
                            lemma_code_point_identifies(flag, c);
                            assert(holds(earlier, c) <==> (holds(before, c) || exists|k: int|
                                1 <= k < j && #[trigger] chars@[k] == c));
                            if c == flag {
                                assert(chars@[j as int] == c);
                            }
                        }
                    }
                    j += 1;
                }
            }
            proof {
                let prev = tokens.take(i as int);
                let next = tokens.take(i as int + 1);
                assert forall|c: char| #[trigger] holds(map@, c) <==> flagged(next, c) by {
                    if flagged(next, c) {
                        let (a, b) = choose|a: int, b: int|
                            0 <= a < next.len() && 1 <= b < next[a].len() && next[a][0] == '-'
                                && #[trigger] next[a][b] == c;
                        if a < i {
                            assert(prev[a][b] == c);
                        } else {
                            assert(chars@[b] == c);
                        }
                    }
                    if holds(before, c) {
                        let (a, b) = choose|a: int, b: int|
                            0 <= a < prev.len() && 1 <= b < prev[a].len() && prev[a][0] == '-'
                                && #[trigger] prev[a][b] == c;
                        assert(next[a][b] == c);
                    }
                    if chars@.len() > 0 && chars@[0] == '-' {
                        if exists|k: int| 1 <= k < chars@.len() && #[trigger] chars@[k] == c {
                            let k = choose|k: int| 1 <= k < chars@.len() && #[trigger] chars@[k] == c;
                            assert(next[i as int][k] == c);
                        }
                    }
                }
            }
            i += 1;
        }
        let info = ArgInfo { _flags: map };
        proof {
            assert(tokens.take(args.len() as int) == tokens);
            assert(info@ =~= flag_set(tokens));
        }
        info
    }

    /// Whether `flag` is set.
    pub fn has_flag(&self, flag: char) -> (b: bool)
        ensures
            b == self@.contains(flag),
    {
        self._flags.contains_key(&(flag as u32))
    }
}

} // verus!
