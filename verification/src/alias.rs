//! The savepoint alias table: an association list from original savepoint
//! name to its assigned alias `s1`, `s2`, ... Aliases are numbered by the
//! count of distinct names in the table plus one, so first occurrences
//! receive sequential numbers across a whole batch; assigning an already
//! known name overwrites its alias under a fresh number. Because a
//! repeated name does not grow the table, its fresh number can coincide
//! with the number a later first occurrence of a different name receives;
//! `spec_assign` states this numbering exactly, and
//! `lemma_savepoint_numbering` proves the sequential case, where the names
//! of a batch are pairwise distinct.

use vstd::prelude::*;

verus! {

/// The decimal digit character for `n` in 0..10.
pub open spec fn digit_char(n: nat) -> char {
    if n == 0 {
        '0'
    } else if n == 1 {
        '1'
    } else if n == 2 {
        '2'
    } else if n == 3 {
        '3'
    } else if n == 4 {
        '4'
    } else if n == 5 {
        '5'
    } else if n == 6 {
        '6'
    } else if n == 7 {
        '7'
    } else if n == 8 {
        '8'
    } else {
        '9'
    }
}

/// The decimal rendering of `n`, most significant digit first, with no
/// leading zeros (and `0` rendered as "0").
pub open spec fn dec_digits(n: nat) -> Seq<char>
    decreases n,
{
    if n < 10 {
        seq![digit_char(n)]
    } else {
        dec_digits(n / 10) + seq![digit_char(n % 10)]
    }
}

/// The alias text for the `n`-th assignment: `s` followed by `n` in decimal.
pub open spec fn alias_text(n: nat) -> Seq<char> {
    seq!['s'] + dec_digits(n)
}

/// The characters of `d`'s digits, last digit first.
pub open spec fn digits_rev(d: Seq<u128>) -> Seq<char>
    decreases d.len(),
{
    if d.len() == 0 {
        Seq::empty()
    } else {
        seq![digit_char(d.last() as nat)] + digits_rev(d.drop_last())
    }
}

fn digit_str(n: u128) -> (r: &'static str)
    requires
        n < 10,
    ensures
        r@ == seq![digit_char(n as nat)],
{
    proof {
        reveal_strlit("0");
        reveal_strlit("1");
        reveal_strlit("2");
        reveal_strlit("3");
        reveal_strlit("4");
        reveal_strlit("5");
        reveal_strlit("6");
        reveal_strlit("7");
        reveal_strlit("8");
        reveal_strlit("9");
    }
    if n == 0 {
        "0"
    } else if n == 1 {
        "1"
    } else if n == 2 {
        "2"
    } else if n == 3 {
        "3"
    } else if n == 4 {
        "4"
    } else if n == 5 {
        "5"
    } else if n == 6 {
        "6"
    } else if n == 7 {
        "7"
    } else if n == 8 {
        "8"
    } else {
        "9"
    }
}

/// Render `n` in decimal.
pub fn dec_string(n: u128) -> (s: String)
    ensures
        s@ == dec_digits(n as nat),
{
    let mut digits: Vec<u128> = Vec::new();
    let mut cur: u128 = n;
    while cur >= 10
        invariant
            dec_digits(n as nat) == dec_digits(cur as nat) + digits_rev(digits@),
            forall|j: int| 0 <= j < digits@.len() ==> digits@[j] < 10,
        decreases cur,
    {
        let r = cur % 10;
        let ghost olddigits = digits@;
        digits.push(r);
        proof {
            assert(digits@.drop_last() =~= olddigits);
            assert(digits_rev(digits@) =~= seq![digit_char(r as nat)] + digits_rev(olddigits));
            assert(dec_digits(cur as nat) =~= dec_digits((cur / 10) as nat) + seq![
                digit_char(r as nat),
            ]);
            assert(dec_digits((cur / 10) as nat) + (seq![digit_char(r as nat)] + digits_rev(
                olddigits,
            )) =~= (dec_digits((cur / 10) as nat) + seq![digit_char(r as nat)]) + digits_rev(
                olddigits,
            ));
        }
        cur = cur / 10;
    }
    let mut s = digit_str(cur).to_owned();
    assert(s@ + digits_rev(digits@) == dec_digits(n as nat));
    let mut i: usize = digits.len();
    proof {
        assert(digits@.subrange(0, i as int) =~= digits@);
    }
    while i > 0
        invariant
            i <= digits@.len(),
            forall|j: int| 0 <= j < digits@.len() ==> digits@[j] < 10,
            s@ + digits_rev(digits@.subrange(0, i as int)) == dec_digits(n as nat),
        decreases i,
    {
        i = i - 1;
        let d = digits[i];
        let ghost pre = digits@.subrange(0, i as int + 1);
        proof {
            assert(pre.last() == digits@[i as int]);
            assert(pre.drop_last() =~= digits@.subrange(0, i as int));
        }
        s.append(digit_str(d));
        proof {
            assert(digits_rev(pre) =~= seq![digit_char(d as nat)] + digits_rev(
                digits@.subrange(0, i as int),
            ));
        }
    }
    proof {
        assert(digits@.subrange(0, 0) =~= Seq::<u128>::empty());
        assert(s@ =~= s@ + digits_rev(digits@.subrange(0, 0)));
    }
    s
}

/// Render the alias for assignment number `n`.
pub fn alias_string(n: u128) -> (s: String)
    ensures
        s@ == alias_text(n as nat),
{
    let mut s = "s".to_owned();
    let d = dec_string(n);
    s.append(d.as_str());
    proof {
        reveal_strlit("s");
        assert(s@ =~= alias_text(n as nat));
    }
    s
}

// ---------------------------------------------------------------------
// The table

/// The spec-level table: a sequence of (name, alias) pairs, one per
/// distinct name, in first-occurrence order.
pub type SpecAliasTable = Seq<(Seq<char>, Seq<char>)>;

/// The index of `name` in the table from position `i` on, or -1.
pub open spec fn find_from(t: SpecAliasTable, name: Seq<char>, i: int) -> int
    decreases t.len() - i,
{
    if i < 0 || i >= t.len() {
        -1
    } else if t[i].0 == name {
        i
    } else {
        find_from(t, name, i + 1)
    }
}

/// The index of `name` in the table, or -1 when absent.
pub open spec fn find_idx(t: SpecAliasTable, name: Seq<char>) -> int {
    find_from(t, name, 0)
}

/// The alias recorded for `name`, if any.
pub open spec fn spec_lookup(t: SpecAliasTable, name: Seq<char>) -> Option<Seq<char>> {
    let i = find_idx(t, name);
    if i >= 0 {
        Option::Some(t[i].1)
    } else {
        Option::None
    }
}

/// The table and alias after assigning a (possibly fresh) alias to `name`:
/// the alias number is the count of distinct names plus one; a known name
/// keeps its position and gets the new alias, a fresh name is appended.
pub open spec fn spec_assign(t: SpecAliasTable, name: Seq<char>) -> (SpecAliasTable, Seq<char>) {
    let a = alias_text(t.len() + 1);
    let i = find_idx(t, name);
    if i >= 0 {
        (t.update(i, (name, a)), a)
    } else {
        (t.push((name, a)), a)
    }
}

/// The savepoint alias table, scoped to one batch.
pub struct AliasTable {
    pub entries: Vec<(String, String)>,
}

impl View for AliasTable {
    type V = SpecAliasTable;

    open spec fn view(&self) -> SpecAliasTable {
        self.entries@.map_values(|p: (String, String)| (p.0@, p.1@))
    }
}

impl AliasTable {
    /// An empty table.
    pub fn new() -> (t: AliasTable)
        ensures
            t@ == Seq::<(Seq<char>, Seq<char>)>::empty(),
    {
        let t = AliasTable { entries: Vec::new() };
        proof {
            assert(t@ =~= Seq::<(Seq<char>, Seq<char>)>::empty());
        }
        t
    }

    /// Find the position of `name`, scanning from the front.
    fn position(&self, name: &String) -> (r: Option<usize>)
        ensures
            match r {
                Option::Some(i) => i == find_idx(self@, name@) && i < self@.len(),
                Option::None => find_idx(self@, name@) == -1,
            },
    {
        let n = self.entries.len();
        let mut i: usize = 0;
        while i < n
            invariant
                i <= n,
                n == self@.len(),
                self@.len() == self.entries@.len(),
                find_idx(self@, name@) == find_from(self@, name@, i as int),
            decreases n - i,
        {
            assert(self@[i as int].0 == self.entries@[i as int].0@);
            if self.entries[i].0.eq(name) {
                return Option::Some(i);
            }
            i = i + 1;
        }
        Option::None
    }

    /// Assign an alias to `name`, as a SAVEPOINT statement does: the alias
    /// number is the current count of names plus one, and it replaces any
    /// alias the name already had.
    pub fn assign(&mut self, name: &String) -> (alias: String)
        ensures
            final(self)@ == spec_assign(old(self)@, name@).0,
            alias@ == spec_assign(old(self)@, name@).1,
    {
        let n: u128 = self.entries.len() as u128;
        let alias = alias_string(n + 1);
        let pos = self.position(name);
        match pos {
            Option::Some(i) => {
                let pair = (name.clone(), alias.clone());
                self.entries.set(i, pair);
                proof {
                    assert(self@ =~= spec_assign(old(self)@, name@).0);
                }
            },
            Option::None => {
                self.entries.push((name.clone(), alias.clone()));
                proof {
                    assert(self@ =~= spec_assign(old(self)@, name@).0);
                }
            },
        }
        alias
    }

    /// Look up the alias of `name`, as RELEASE and ROLLBACK do.
    pub fn lookup(&self, name: &String) -> (r: Option<String>)
        ensures
            match r {
                Option::Some(a) => spec_lookup(self@, name@) == Option::Some(a@),
                Option::None => spec_lookup(self@, name@) is None,
            },
    {
        let pos = self.position(name);
        match pos {
            Option::Some(i) => Option::Some(self.entries[i].1.clone()),
            Option::None => Option::None,
        }
    }
}

} // verus!
