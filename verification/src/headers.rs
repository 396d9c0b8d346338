//! A header collection: key-value pairs of strings whose keys compare
//! case-insensitively on ASCII letters, modelled as a map from the lowered
//! key to the value.

use vstd::prelude::*;
use vstd::string::StrSliceExecFns;

verus! {

/// `c` with an ASCII upper-case letter mapped to its lower-case form; any
/// other character is left as it is.
pub open spec fn lower_char(c: char) -> char {
    match c {
        'A' => 'a',
        'B' => 'b',
        'C' => 'c',
        'D' => 'd',
        'E' => 'e',
        'F' => 'f',
        'G' => 'g',
        'H' => 'h',
        'I' => 'i',
        'J' => 'j',
        'K' => 'k',
        'L' => 'l',
        'M' => 'm',
        'N' => 'n',
        'O' => 'o',
        'P' => 'p',
        'Q' => 'q',
        'R' => 'r',
        'S' => 's',
        'T' => 't',
        'U' => 'u',
        'V' => 'v',
        'W' => 'w',
        'X' => 'x',
        'Y' => 'y',
        'Z' => 'z',
        _ => c,
    }
}

/// `s` with every ASCII upper-case letter lowered: the canonical form under
/// which header names are compared.
pub open spec fn lower_name(s: Seq<char>) -> Seq<char> {
    Seq::new(s.len(), |i: int| lower_char(s[i]))
}

/// `c` lowered, at run time.
fn to_lower_char(c: char) -> (r: char)
    ensures
        r == lower_char(c),
{
    match c {
        'A' => 'a',
        'B' => 'b',
        'C' => 'c',
        'D' => 'd',
        'E' => 'e',
        'F' => 'f',
        'G' => 'g',
        'H' => 'h',
        'I' => 'i',
        'J' => 'j',
        'K' => 'k',
        'L' => 'l',
        'M' => 'm',
        'N' => 'n',
        'O' => 'o',
        'P' => 'p',
        'Q' => 'q',
        'R' => 'r',
        'S' => 's',
        'T' => 't',
        'U' => 'u',
        'V' => 'v',
        'W' => 'w',
        'X' => 'x',
        'Y' => 'y',
        'Z' => 'z',
        _ => c,
    }
}

/// Whether two names agree once both are lowered.
fn eq_ignore_ascii_case(a: &str, b: &str) -> (r: bool)
    ensures
        r == (lower_name(a@) == lower_name(b@)),
{
    let alen: usize = a.unicode_len();
    let blen: usize = b.unicode_len();
    if alen != blen {
        proof {
            assert(lower_name(a@).len() != lower_name(b@).len());
        }
        return false;
    }
    let mut i: usize = 0;
    while i < alen
        invariant
            i <= alen,
            alen == a@.len(),
            alen == b@.len(),
            forall|j: int| 0 <= j < i ==> lower_char(a@[j]) == lower_char(b@[j]),
        decreases alen - i,
    {
        let ca: char = a.get_char(i);
        let cb: char = b.get_char(i);
        if to_lower_char(ca) != to_lower_char(cb) {
            proof {
                assert(lower_name(a@)[i as int] != lower_name(b@)[i as int]);
            }
            return false;
        }
        i += 1;
    }
    proof {
        assert(lower_name(a@) =~= lower_name(b@));
    }
    true
}

/// Index of the first entry whose name matches `name` case-insensitively.
fn find_name(entries: &Vec<(String, String)>, name: &str) -> (r: Option<usize>)
    ensures
        (match r {
            Some(i) => i < entries@.len() && lower_name(entries@[i as int].0@) == lower_name(
                name@,
            ),
            None => forall|j: int|
                0 <= j < entries@.len() ==> lower_name(entries@[j].0@) != lower_name(name@),
        }),
{
    let mut i: usize = 0;
    let n: usize = entries.len();
    while i < n
        invariant
            i <= n,
            n == entries@.len(),
            forall|j: int| 0 <= j < i ==> lower_name(entries@[j].0@) != lower_name(name@),
        decreases n - i,
    {
        if eq_ignore_ascii_case(entries[i].0.as_str(), name) {
            return Some(i);
        }
        i += 1;
    }
    None
}

/// No two entries share a lowered key.
spec fn distinct_keys(s: Seq<(String, String)>) -> bool {
    forall|i: int, j: int|
        0 <= i < j < s.len() ==> lower_name(s[i].0@) != lower_name(s[j].0@)
}

/// The map an entry sequence denotes: each lowered key bound to its value,
/// later entries overriding earlier ones.
spec fn entries_map(s: Seq<(String, String)>) -> Map<Seq<char>, Seq<char>>
    decreases s.len(),
{
    if s.len() == 0 {
        Map::empty()
    } else {
        entries_map(s.drop_last()).insert(lower_name(s.last().0@), s.last().1@)
    }
}

proof fn lemma_entries_map_contains(s: Seq<(String, String)>, k: Seq<char>)
    ensures
        entries_map(s).contains_key(k) <==> (exists|i: int|
            0 <= i < s.len() && lower_name(s[i].0@) == k),
    decreases s.len(),
{
    if s.len() == 0 {
    } else {
        lemma_entries_map_contains(s.drop_last(), k);
        if lower_name(s.last().0@) == k {
            assert(lower_name(s[s.len() - 1].0@) == k);
        } else {
            if exists|i: int| 0 <= i < s.drop_last().len() && lower_name(
                s.drop_last()[i].0@,
            ) == k {
                let i = choose|i: int|
                    0 <= i < s.drop_last().len() && lower_name(s.drop_last()[i].0@) == k;
                assert(lower_name(s[i].0@) == k);
            }
            if exists|i: int| 0 <= i < s.len() && lower_name(s[i].0@) == k {
                let i = choose|i: int| 0 <= i < s.len() && lower_name(s[i].0@) == k;
                assert(i < s.len() - 1);
                assert(lower_name(s.drop_last()[i].0@) == k);
            }
        }
    }
}

proof fn lemma_entries_map_value(s: Seq<(String, String)>, i: int)
    requires
        distinct_keys(s),
        0 <= i < s.len(),
    ensures
        entries_map(s).contains_key(lower_name(s[i].0@)),
        entries_map(s)[lower_name(s[i].0@)] == s[i].1@,
    decreases s.len(),
{
    if i == s.len() - 1 {
    } else {
        assert(distinct_keys(s.drop_last())) by {
            assert(forall|a: int, b: int|
                #![trigger s.drop_last()[a], s.drop_last()[b]]
                0 <= a < b < s.drop_last().len() ==> lower_name(s.drop_last()[a].0@)
                    != lower_name(s.drop_last()[b].0@));
        }
        lemma_entries_map_value(s.drop_last(), i);
        assert(lower_name(s[i].0@) != lower_name(s.last().0@));
    }
}

/// A collection of header name-value pairs. Names keep the spelling they
/// were set with, but compare case-insensitively: setting a name replaces
/// any entry whose name differs only in ASCII case.
pub struct Headers {
    entries: Vec<(String, String)>,
}

impl View for Headers {
    type V = Map<Seq<char>, Seq<char>>;

    closed spec fn view(&self) -> Map<Seq<char>, Seq<char>> {
        entries_map(self.entries@)
    }
}

impl Headers {
    #[verifier::type_invariant]
    spec fn inv(self) -> bool {
        distinct_keys(self.entries@)
    }

    /// Create an empty header collection.
    pub fn new() -> (h: Headers)
        ensures
            h@ == Map::<Seq<char>, Seq<char>>::empty(),
    {
        Headers { entries: Vec::new() }
    }

    /// Bind `name` to `value`, replacing any entry whose name matches
    /// case-insensitively.
    pub fn set(&mut self, name: &str, value: String)
        ensures
            final(self)@ == old(self)@.insert(lower_name(name@), value@),
    {
        proof {
            use_type_invariant(&*self);
        }
        let ghost s = old(self).entries@;
        let ghost k = lower_name(name@);
        let mut entries: Vec<(String, String)> = Vec::new();
        std::mem::swap(&mut entries, &mut self.entries);
        match find_name(&entries, name) {
            Some(i) => {
                proof {
                    lemma_entries_map_remove(s, i as int);
                }
                let _ = entries.remove(i);
                proof {
                    assert(forall|j: int|
                        0 <= j < s.remove(i as int).len() ==> lower_name(
                            #[trigger] s.remove(i as int)[j].0@,
                        ) != k) by {
                        assert(forall|j: int|
                            0 <= j < s.remove(i as int).len() ==> s.remove(i as int)[j] == (
                            if j < i { s[j] } else { s[j + 1] }));
                    }
                }
                let ghost removed = entries@;
                entries.push((name.to_owned(), value));
                proof {
                    assert(entries@.drop_last() =~= removed);
                    assert(entries_map(entries@) == entries_map(removed).insert(k, value@));
                    assert(entries_map(s).remove(k).insert(k, value@) =~= entries_map(s).insert(
                        k,
                        value@,
                    ));
                    assert(forall|a: int, b: int|
                        #![trigger entries@[a], entries@[b]]
                        0 <= a < b < entries@.len() ==> lower_name(entries@[a].0@) != lower_name(
                            entries@[b].0@,
                        )) by {
                        assert(forall|a: int|
                            0 <= a < removed.len() ==> #[trigger] entries@[a] == removed[a]);
                    }
                }
            },
            None => {
                let ghost before = entries@;
                entries.push((name.to_owned(), value));
                proof {
                    assert(entries@.drop_last() =~= before);
                    lemma_entries_map_contains(before, k);
                    assert(forall|a: int, b: int|
                        #![trigger entries@[a], entries@[b]]
                        0 <= a < b < entries@.len() ==> lower_name(entries@[a].0@) != lower_name(
                            entries@[b].0@,
                        )) by {
                        assert(forall|a: int|
                            0 <= a < before.len() ==> #[trigger] entries@[a] == before[a]);
                    }
                }
            },
        }
        std::mem::swap(&mut entries, &mut self.entries);
    }

    /// Look up the value bound to `name`, comparing case-insensitively.
    pub fn get(&self, name: &str) -> (r: Option<&String>)
        ensures
            (match r {
                Some(v) => self@.contains_key(lower_name(name@)) && v@ == self@[lower_name(
                    name@,
                )],
                None => !self@.contains_key(lower_name(name@)),
            }),
    {
        proof {
            use_type_invariant(&*self);
        }
        let mut i: usize = 0;
        let n: usize = self.entries.len();
        while i < n
            invariant
                i <= n,
                n == self.entries@.len(),
                distinct_keys(self.entries@),
                forall|j: int| 0 <= j < i ==> lower_name(self.entries@[j].0@) != lower_name(name@),
            decreases n - i,
        {
            let hit: bool = eq_ignore_ascii_case(self.entries[i].0.as_str(), name);
            if hit {
                proof {
                    lemma_entries_map_value(self.entries@, i as int);
                }
                return Some(&self.entries[i].1);
            }
            i += 1;
        }
        proof {
            lemma_entries_map_contains(self.entries@, lower_name(name@));
        }
        None
    }
}

proof fn lemma_entries_map_remove(s: Seq<(String, String)>, i: int)
    requires
        distinct_keys(s),
        0 <= i < s.len(),
    ensures
        distinct_keys(s.remove(i)),
        entries_map(s.remove(i)) == entries_map(s).remove(lower_name(s[i].0@)),
    decreases s.len(),
{
    let k = lower_name(s[i].0@);
    if i == s.len() - 1 {
        assert(s.remove(i) =~= s.drop_last());
        lemma_entries_map_contains(s.drop_last(), k);
        assert(forall|j: int| 0 <= j < s.drop_last().len() ==> lower_name(
            #[trigger] s.drop_last()[j].0@,
        ) != k);
        assert(entries_map(s.drop_last()).remove(k) =~= entries_map(s.drop_last()));
        assert(entries_map(s).remove(k) =~= entries_map(s.drop_last()));
    } else {
        assert(distinct_keys(s.drop_last())) by {
            assert(forall|a: int, b: int|
                #![trigger s.drop_last()[a], s.drop_last()[b]]
                0 <= a < b < s.drop_last().len() ==> lower_name(s.drop_last()[a].0@)
                    != lower_name(s.drop_last()[b].0@));
        }
        lemma_entries_map_remove(s.drop_last(), i);
        assert(s.remove(i).drop_last() =~= s.drop_last().remove(i));
        assert(s.remove(i).last() == s.last());
        assert(entries_map(s.remove(i)) == entries_map(s.drop_last().remove(i)).insert(
            lower_name(s.last().0@),
            s.last().1@,
        ));
        assert(lower_name(s.last().0@) != k);
        assert(entries_map(s.drop_last()).remove(k).insert(lower_name(s.last().0@), s.last().1@)
            =~= entries_map(s.drop_last()).insert(lower_name(s.last().0@), s.last().1@).remove(k));
    }
}

} // verus!
