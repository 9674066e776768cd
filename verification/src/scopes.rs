//! OAuth scope lists: space-separated words, order preserved, duplicates
//! preserved, membership tested by exact match.

use vstd::prelude::*;

verus! {

/// The character sequences of a list of strings.
pub open spec fn views_of(ss: Seq<String>) -> Seq<Seq<char>> {
    ss.map_values(|s: String| s@)
}

pub open spec fn no_space(s: Seq<char>) -> bool {
    forall|i: int| 0 <= i < s.len() ==> s[i] != ' '
}

pub open spec fn all_no_space(ss: Seq<Seq<char>>) -> bool {
    forall|i: int| 0 <= i < ss.len() ==> no_space(ss[i])
}

/// Index of the first space in `s`, or `s.len()` if there is none.
pub open spec fn first_space(s: Seq<char>) -> int
    decreases s.len(),
{
    if s.len() == 0 {
        0
    } else if s[0] == ' ' {
        0
    } else {
        1 + first_space(s.skip(1))
    }
}

pub proof fn lemma_first_space_props(s: Seq<char>)
    ensures
        0 <= first_space(s) <= s.len(),
        forall|j: int| 0 <= j < first_space(s) ==> s[j] != ' ',
        first_space(s) < s.len() ==> s[first_space(s)] == ' ',
    decreases s.len(),
{
    if s.len() > 0 && s[0] != ' ' {
        lemma_first_space_props(s.skip(1));
        assert forall|j: int| 0 <= j < first_space(s) implies s[j] != ' ' by {
            if j > 0 {
                assert(s.skip(1)[j - 1] != ' ');
            }
        }
    }
}

/// Characterization: if the first `k` characters are not spaces and position
/// `k` is a space (or the end), then `k` is the first space.
pub proof fn lemma_first_space_at(s: Seq<char>, k: int)
    requires
        0 <= k <= s.len(),
        forall|j: int| 0 <= j < k ==> s[j] != ' ',
        k == s.len() || s[k] == ' ',
    ensures
        first_space(s) == k,
    decreases s.len(),
{
    if s.len() > 0 && s[0] != ' ' {
        let t = s.skip(1);
        assert(forall|j: int| 0 <= j < t.len() ==> t[j] == s[j + 1]);
        lemma_first_space_at(t, k - 1);
    }
}

/// Split `s` on single spaces. Splitting the empty string yields one empty
/// element, as splitting preserves the count of separators.
pub open spec fn split_spaces(s: Seq<char>) -> Seq<Seq<char>>
    decreases s.len(),
    via split_spaces_decreases
{
    let k = first_space(s);
    if k == s.len() {
        seq![s]
    } else {
        seq![s.take(k)] + split_spaces(s.skip(k + 1))
    }
}

#[via_fn]
proof fn split_spaces_decreases(s: Seq<char>) {
    lemma_first_space_props(s);
}

/// Join with single spaces.
pub open spec fn join_spaces(ss: Seq<Seq<char>>) -> Seq<char>
    decreases ss.len(),
{
    if ss.len() == 0 {
        Seq::empty()
    } else if ss.len() == 1 {
        ss[0]
    } else {
        ss[0] + seq![' '] + join_spaces(ss.skip(1))
    }
}

pub proof fn lemma_join_push(ss: Seq<Seq<char>>, x: Seq<char>)
    ensures
        ss.len() == 0 ==> join_spaces(ss.push(x)) == x,
        ss.len() > 0 ==> join_spaces(ss.push(x)) == join_spaces(ss) + seq![' '] + x,
    decreases ss.len(),
{
    if ss.len() == 0 {
        assert(join_spaces(ss.push(x)) == ss.push(x)[0]);
        assert(ss.push(x)[0] == x);
    } else if ss.len() == 1 {
        assert(ss.push(x).skip(1) =~= seq![x]);
        assert(join_spaces(seq![x]) == x);
        assert(ss.push(x)[0] == ss[0]);
        assert(join_spaces(ss.push(x)) == ss[0] + seq![' '] + x);
        assert(join_spaces(ss) == ss[0]);
    } else {
        assert(ss.push(x).skip(1) =~= ss.skip(1).push(x));
        lemma_join_push(ss.skip(1), x);
    }
}

/// Scope round trip: joining any non-empty list of space-free elements and
/// splitting the result restores the same list.
pub proof fn lemma_scopes_round_trip(ss: Seq<Seq<char>>)
    requires
        ss.len() >= 1,
        all_no_space(ss),
    ensures
        split_spaces(join_spaces(ss)) == ss,
    decreases ss.len(),
{
    if ss.len() == 1 {
        let t = ss[0];
        assert(join_spaces(ss) == t);
        assert(no_space(t));
        lemma_first_space_at(t, t.len() as int);
        assert(split_spaces(t) =~= ss);
    } else {
        let head = ss[0];
        let rest = ss.skip(1);
        let t = head + seq![' '] + join_spaces(rest);
        assert(join_spaces(ss) == t);
        let k = head.len() as int;
        assert(no_space(head));
        assert forall|j: int| 0 <= j < k implies t[j] != ' ' by {
            assert(t[j] == head[j]);
        }
        assert(t[k] == ' ');
        lemma_first_space_at(t, k);
        assert(t.take(k) =~= head);
        assert(t.skip(k + 1) =~= join_spaces(rest));
        assert(all_no_space(rest));
        lemma_scopes_round_trip(rest);
        assert(seq![head] + rest =~= ss);
    }
}

/// A requested or granted scope list.
#[derive(Clone, Debug)]
pub struct Scopes(pub Vec<String>);

impl Scopes {
    /// The scope list as character sequences.
    pub open spec fn view_elems(&self) -> Seq<Seq<char>> {
        views_of(self.0@)
    }

    /// Parse a space-separated scope string.
    pub fn parse(s: &str) -> (r: Scopes)
        ensures
            r.view_elems() == split_spaces(s@),
            r.0@.len() >= 1,
    {
        let n = s.unicode_len();
        let mut items: Vec<String> = Vec::new();
        let mut start: usize = 0;
        proof {
            assert(s@.skip(0) =~= s@);
            assert(views_of(items@) =~= Seq::<Seq<char>>::empty());
        }
        loop
            invariant_except_break
                start <= n,
                n == s@.len(),
                views_of(items@) + split_spaces(s@.skip(start as int)) =~= split_spaces(s@),
            ensures
                views_of(items@) =~= split_spaces(s@),
                items@.len() >= 1,
            decreases n - start,
        {
            let ghost t = s@.skip(start as int);
            let mut i = start;
            while i < n && s.get_char(i) != ' '
                invariant
                    start <= i <= n,
                    n == s@.len(),
                    forall|j: int| start <= j < i ==> s@[j] != ' ',
                decreases n - i,
            {
                i = i + 1;
            }
            proof {
                assert(forall|j: int| 0 <= j < t.len() ==> t[j] == s@[start + j]);
                lemma_first_space_at(t, i - start);
            }
            let word = String::from_str(s.substring_char(start, i));
            items.push(word);
            proof {
                assert(views_of(items@) =~= views_of(items@.drop_last()).push(word@));
                assert(word@ =~= t.take(i - start));
            }
            if i == n {
                proof {
                    assert(first_space(t) == t.len());
                    assert(split_spaces(t) == seq![t]);
                    assert(t.take(i - start) =~= t);
                    assert(views_of(items@.drop_last()).push(t) =~= views_of(items@.drop_last())
                        + split_spaces(t));
                }
                break ;
            }
            proof {
                assert(first_space(t) < t.len());
                assert(split_spaces(t) == seq![t.take(i - start)] + split_spaces(
                    t.skip(i - start + 1),
                ));
                assert(t.skip(i - start + 1) =~= s@.skip(i + 1));
                assert(views_of(items@.drop_last()).push(word@) + split_spaces(s@.skip(i + 1))
                    =~= views_of(items@.drop_last()) + split_spaces(t));
            }
            start = i + 1;
        }
        Scopes(items)
    }

    /// Serialize the scope list, space-separated.
    pub fn format(&self) -> (r: String)
        ensures
            r@ == join_spaces(self.view_elems()),
    {
        let mut out = String::new();
        let mut i: usize = 0;
        let n = self.0.len();
        proof {
            assert(self.view_elems().take(0) =~= Seq::<Seq<char>>::empty());
        }
        while i < n
            invariant
                i <= n,
                n == self.0@.len(),
                out@ == join_spaces(self.view_elems().take(i as int)),
            decreases n - i,
        {
            if i > 0 {
                out.append(" ");
            }
            out.append(self.0[i].as_str());
            proof {
                reveal_strlit(" ");
                assert(" "@ =~= seq![' ']);
                lemma_join_push(self.view_elems().take(i as int), self.view_elems()[i as int]);
                assert(self.view_elems().take(i + 1) =~= self.view_elems().take(i as int).push(
                    self.view_elems()[i as int],
                ));
            }
            i = i + 1;
        }
        proof {
            assert(self.view_elems().take(n as int) =~= self.view_elems());
        }
        out
    }

    /// An element-for-element copy.
    pub fn duplicate(&self) -> (r: Scopes)
        ensures
            r.0@ == self.0@,
            r.view_elems() == self.view_elems(),
    {
        Scopes(crate::query::clone_strings(&self.0))
    }

    /// Exact-match membership test.
    pub fn contains_scope(&self, name: &String) -> (r: bool)
        ensures
            r == self.view_elems().contains(name@),
    {
        let n = self.0.len();
        let mut i: usize = 0;
        while i < n
            invariant
                i <= n,
                n == self.0@.len(),
                forall|j: int| 0 <= j < i ==> self.view_elems()[j] != name@,
            decreases n - i,
        {
            if self.0[i] == *name {
                proof {
                    assert(self.view_elems()[i as int] == name@);
                }
                return true;
            }
            i = i + 1;
        }
        false
    }
}

} // verus!
