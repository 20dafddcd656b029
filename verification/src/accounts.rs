//! Account identifiers and lists of accounts.
use vstd::prelude::*;

verus! {

/// An account on the chain, kept as its textual name.
pub type AccountId = String;

/// The account `a` occurs in the list `s`.
pub open spec fn has_account(s: Seq<AccountId>, a: Seq<char>) -> bool {
    exists|i: int| 0 <= i < s.len() && (#[trigger] s[i])@ == a
}

/// The position of the first occurrence of `a` in `s`, if any.
pub open spec fn first_index_of(s: Seq<AccountId>, a: Seq<char>, i: int) -> bool {
    &&& 0 <= i < s.len()
    &&& s[i]@ == a
    &&& forall|j: int| 0 <= j < i ==> (#[trigger] s[j])@ != a
}

/// The names of the accounts of a list.
pub open spec fn names(s: Seq<AccountId>) -> Seq<Seq<char>> {
    s.map_values(|a: AccountId| a@)
}

/// Whether `account` occurs in `list`.
pub fn contains_account(list: &Vec<AccountId>, account: &AccountId) -> (r: bool)
    ensures
        r == has_account(list@, account@),
{
    let mut i: usize = 0;
    while i < list.len()
        invariant
            0 <= i <= list.len(),
            forall|j: int| 0 <= j < i ==> (#[trigger] list@[j])@ != account@,
        decreases list.len() - i,
    {
        if list[i] == *account {
            return true;
        }
        i = i + 1;
    }
    false
}

/// The position of the first occurrence of `account` in `list`, if any.
pub fn position_of_account(list: &Vec<AccountId>, account: &AccountId) -> (r: Option<usize>)
    ensures
        r matches Some(i) ==> first_index_of(list@, account@, i as int),
        r is None <==> !has_account(list@, account@),
{
    let mut i: usize = 0;
    while i < list.len()
        invariant
            0 <= i <= list.len(),
            forall|j: int| 0 <= j < i ==> (#[trigger] list@[j])@ != account@,
        decreases list.len() - i,
    {
        if list[i] == *account {
            return Some(i);
        }
        i = i + 1;
    }
    None
}

/// A copy of a list of accounts with the same names in the same order.
pub fn copy_accounts(list: &Vec<AccountId>) -> (r: Vec<AccountId>)
    ensures
        r@ == list@,
{
    let mut r: Vec<AccountId> = Vec::new();
    let mut i: usize = 0;
    while i < list.len()
        invariant
            0 <= i <= list.len(),
            r@ == list@.subrange(0, i as int),
        decreases list.len() - i,
    {
        r.push(list[i].clone());
        i = i + 1;
        assert(r@ =~= list@.subrange(0, i as int));
    }
    assert(r@ =~= list@);
    r
}

/// `s` with `a` appended unless it is already there.
pub open spec fn set_insert(s: Seq<AccountId>, a: AccountId) -> Seq<AccountId> {
    if has_account(s, a@) {
        s
    } else {
        s.push(a)
    }
}

/// `s` after inserting each account of `list` in turn.
pub open spec fn set_insert_all(s: Seq<AccountId>, list: Seq<AccountId>) -> Seq<AccountId>
    decreases list.len(),
{
    if list.len() == 0 {
        s
    } else {
        set_insert(set_insert_all(s, list.drop_last()), list.last())
    }
}

/// `s` without its first occurrence of `a`, whose place the last account takes.
pub open spec fn set_remove(s: Seq<AccountId>, a: Seq<char>) -> Seq<AccountId> {
    if has_account(s, a) {
        let i = choose|i: int| first_index_of(s, a, i);
        s.update(i, s.last()).drop_last()
    } else {
        s
    }
}

/// `s` after removing each account of `list` in turn.
pub open spec fn set_remove_all(s: Seq<AccountId>, list: Seq<AccountId>) -> Seq<AccountId>
    decreases list.len(),
{
    if list.len() == 0 {
        s
    } else {
        set_remove(set_remove_all(s, list.drop_last()), list.last()@)
    }
}

/// The accounts that a request names: the list if given, else the single account.
pub open spec fn requested_accounts(
    account_id: Option<AccountId>,
    account_ids: Option<Vec<AccountId>>,
) -> Option<Seq<AccountId>> {
    match account_ids {
        Some(v) => Some(v@),
        None => match account_id {
            Some(a) => Some(seq![a]),
            None => None,
        },
    }
}

/// The accounts that a request names; none if it names neither a list nor an account.
pub fn resolve_accounts(account_id: Option<AccountId>, account_ids: Option<Vec<AccountId>>) -> (r:
    Option<Vec<AccountId>>)
    ensures
        match requested_accounts(account_id, account_ids) {
            Some(s) => r matches Some(v) && v@ == s,
            None => r is None,
        },
{
    match account_ids {
        Some(v) => Some(v),
        None => match account_id {
            Some(a) => {
                let mut v: Vec<AccountId> = Vec::new();
                v.push(a);
                proof { assert(v@ =~= seq![a]); }
                Some(v)
            },
            None => None,
        },
    }
}

/// Appends `account` unless the set already holds it.
pub fn insert_account(set: &mut Vec<AccountId>, account: AccountId)
    ensures
        final(set)@ == set_insert(old(set)@, account),
{
    if !contains_account(set, &account) {
        set.push(account);
    }
}

/// Removes the first occurrence of `account`; the last account takes its place.
pub fn remove_account(set: &mut Vec<AccountId>, account: &AccountId)
    ensures
        final(set)@ == set_remove(old(set)@, account@),
{
    match position_of_account(set, account) {
        Some(i) => {
            proof {
                let j = choose|j: int| first_index_of(old(set)@, account@, j);
                assert(j == i as int) by {
                    if j < i { assert(old(set)@[j]@ != account@); }
                    if i < j { assert(old(set)@[i as int]@ != account@); }
                }
            }
            set.swap_remove(i);
        },
        None => {},
    }
}

/// Inserts every account of `list` in turn.
pub fn insert_accounts(set: &mut Vec<AccountId>, list: &Vec<AccountId>)
    ensures
        final(set)@ == set_insert_all(old(set)@, list@),
{
    let mut i: usize = 0;
    while i < list.len()
        invariant
            i <= list@.len(),
            set@ == set_insert_all(old(set)@, list@.subrange(0, i as int)),
        decreases list@.len() - i,
    {
        proof {
            assert(list@.subrange(0, i + 1).drop_last() =~= list@.subrange(0, i as int));
        }
        insert_account(set, list[i].clone());
        i = i + 1;
    }
    proof { assert(list@.subrange(0, list@.len() as int) =~= list@); }
}

/// Removes every account of `list` in turn.
pub fn remove_accounts(set: &mut Vec<AccountId>, list: &Vec<AccountId>)
    ensures
        final(set)@ == set_remove_all(old(set)@, list@),
{
    let mut i: usize = 0;
    while i < list.len()
        invariant
            i <= list@.len(),
            set@ == set_remove_all(old(set)@, list@.subrange(0, i as int)),
        decreases list@.len() - i,
    {
        proof {
            assert(list@.subrange(0, i + 1).drop_last() =~= list@.subrange(0, i as int));
        }
        remove_account(set, &list[i]);
        i = i + 1;
    }
    proof { assert(list@.subrange(0, list@.len() as int) =~= list@); }
}


/// The entries of a keyed list, each account by its name.
pub open spec fn named<M>(s: Seq<(AccountId, M)>) -> Seq<(Seq<char>, M)> {
    s.map_values(|e: (AccountId, M)| (e.0@, e.1))
}

/// No name occurs twice among the keys.
pub open spec fn unique_names<M>(s: Seq<(Seq<char>, M)>) -> bool {
    forall|i: int, j: int| 0 <= i < j < s.len() ==> (#[trigger] s[i]).0 != (#[trigger] s[j]).0
}

/// The name `a` is a key of `s`.
pub open spec fn has_name<M>(s: Seq<(Seq<char>, M)>, a: Seq<char>) -> bool {
    exists|i: int| 0 <= i < s.len() && (#[trigger] s[i]).0 == a
}

/// A position of the key `a` in `s` (the only one where keys are unique).
pub open spec fn name_index<M>(s: Seq<(Seq<char>, M)>, a: Seq<char>) -> int {
    choose|i: int| 0 <= i < s.len() && (#[trigger] s[i]).0 == a
}

/// The value stored under `a`, if any.
pub open spec fn lookup<M>(s: Seq<(Seq<char>, M)>, a: Seq<char>) -> Option<M> {
    if has_name(s, a) {
        Some(s[name_index(s, a)].1)
    } else {
        None
    }
}

/// `s` with `m` stored under `a`: in place where `a` is a key, else appended.
pub open spec fn store<M>(s: Seq<(Seq<char>, M)>, a: Seq<char>, m: M) -> Seq<(Seq<char>, M)> {
    if has_name(s, a) {
        s.update(name_index(s, a), (a, m))
    } else {
        s.push((a, m))
    }
}

/// The entries from position `from` on, at most `limit` of them.
pub open spec fn page<M>(s: Seq<M>, from: int, limit: int) -> Seq<M> {
    let end = if from + limit < s.len() { from + limit } else { s.len() as int };
    if from < end {
        s.subrange(from, end)
    } else {
        Seq::empty()
    }
}

/// Storing keeps the keys unique, and a read gives back what was stored last.
pub proof fn lemma_store<M>(s: Seq<(Seq<char>, M)>, a: Seq<char>, m: M, b: Seq<char>)
    requires
        unique_names(s),
    ensures
        unique_names(store(s, a, m)),
        lookup(store(s, a, m), b) == (if b == a { Some(m) } else { lookup(s, b) }),
        store(s, a, m).len() == s.len() + (if has_name(s, a) { 0int } else { 1int }),
{
    let t = store(s, a, m);
    if has_name(s, a) {
        let k = name_index(s, a);
        assert(t[k].0 == a);
        if b == a {
            assert(has_name(t, b));
            let j = name_index(t, b);
            assert(j == k) by {
                if j != k {
                    if j < k { assert(t[j] == s[j]); } else { assert(t[j] == s[j]); }
                }
            }
        } else {
            assert forall|i: int| 0 <= i < t.len() && (#[trigger] t[i]).0 == b implies s[i].0 == b by {
                assert(i != k);
            }
            if has_name(s, b) {
                let i = name_index(s, b);
                assert(i != k);
                assert(t[i] == s[i]);
                assert(has_name(t, b));
                let j = name_index(t, b);
                assert(j != k);
                assert(s[j].0 == b);
                assert(j == i) by {
                    if j < i { assert(s[j].0 != s[i].0); }
                    if i < j { assert(s[i].0 != s[j].0); }
                }
            } else {
                assert(!has_name(t, b)) by {
                    if has_name(t, b) {
                        let j = name_index(t, b);
                        assert(s[j].0 == b);
                    }
                }
            }
        }
        assert forall|i: int, j: int| 0 <= i < j < t.len() implies (#[trigger] t[i]).0 != (#[trigger] t[j]).0 by {
            if i == k { assert(s[j].0 != s[k].0); }
            else if j == k { assert(s[i].0 != s[k].0); }
            else { assert(s[i].0 != s[j].0); }
        }
    } else {
        let n = s.len() as int;
        assert(t[n].0 == a);
        if b == a {
            assert(has_name(t, b));
            let j = name_index(t, b);
            assert(j == n) by {
                if j < n { assert(t[j] == s[j]); }
            }
        } else {
            if has_name(s, b) {
                let i = name_index(s, b);
                assert(t[i] == s[i]);
                assert(has_name(t, b));
                let j = name_index(t, b);
                assert(j < n);
                assert(t[j] == s[j]);
                assert(j == i) by {
                    if j < i { assert(s[j].0 != s[i].0); }
                    if i < j { assert(s[i].0 != s[j].0); }
                }
            } else {
                assert(!has_name(t, b)) by {
                    if has_name(t, b) {
                        let j = name_index(t, b);
                        assert(j < n);
                        assert(t[j] == s[j]);
                    }
                }
            }
        }
        assert forall|i: int, j: int| 0 <= i < j < t.len() implies (#[trigger] t[i]).0 != (#[trigger] t[j]).0 by {
            if j == n {
                assert(t[i] == s[i]);
                assert(!(s[i].0 == a));
            } else {
                assert(t[i] == s[i]);
                assert(t[j] == s[j]);
            }
        }
    }
}

/// The position of the entry of `account` in `list`, if it has one.
pub fn find_entry<M>(list: &Vec<(AccountId, M)>, account: &AccountId) -> (r: Option<usize>)
    ensures
        r matches Some(i) ==> i < list@.len() && list@[i as int].0@ == account@,
        r is None ==> !has_name(named(list@), account@),
{
    let mut i: usize = 0;
    while i < list.len()
        invariant
            0 <= i <= list@.len(),
            forall|j: int| 0 <= j < i ==> (#[trigger] list@[j]).0@ != account@,
        decreases list.len() - i,
    {
        if list[i].0 == *account {
            return Some(i);
        }
        i = i + 1;
    }
    proof {
        if has_name(named(list@), account@) {
            let j = name_index(named(list@), account@);
            assert(named(list@)[j] == (list@[j].0@, list@[j].1));
        }
    }
    None
}

/// The value stored under `account`.
pub fn lookup_entry<M: Copy>(list: &Vec<(AccountId, M)>, account: &AccountId) -> (r: Option<M>)
    requires
        unique_names(named(list@)),
    ensures
        r == lookup(named(list@), account@),
{
    match find_entry(list, account) {
        Some(i) => {
            proof {
                let s = named(list@);
                assert(s[i as int] == (list@[i as int].0@, list@[i as int].1));
                assert(has_name(s, account@));
                let j = name_index(s, account@);
                assert(j == i as int) by {
                    if j < i { assert(s[j].0 != s[i as int].0); }
                    if i < j { assert(s[i as int].0 != s[j].0); }
                }
            }
            Some(list[i].1)
        },
        None => None,
    }
}

/// Stores `value` under `account`: in place where it has an entry, else appended.
pub fn store_entry<M: Copy>(list: &mut Vec<(AccountId, M)>, account: &AccountId, value: M)
    requires
        unique_names(named(old(list)@)),
    ensures
        named(final(list)@) == store(named(old(list)@), account@, value),
        unique_names(named(final(list)@)),
{
    let ghost s = named(list@);
    match find_entry(list, account) {
        Some(i) => {
            proof {
                assert(s[i as int] == (list@[i as int].0@, list@[i as int].1));
                assert(has_name(s, account@));
                let j = name_index(s, account@);
                assert(j == i as int) by {
                    if j < i { assert(s[j].0 != s[i as int].0); }
                    if i < j { assert(s[i as int].0 != s[j].0); }
                }
            }
            list.set(i, (account.clone(), value));
            proof {
                assert(named(list@) =~= s.update(i as int, (account@, value)));
            }
        },
        None => {
            list.push((account.clone(), value));
            proof {
                assert(named(list@) =~= s.push((account@, value)));
            }
        },
    }
    proof { lemma_store(s, account@, value, account@); }
}

/// Copies of the entries from position `from` on, at most `limit` of them.
pub fn page_of_entries<M: Copy>(list: &Vec<(AccountId, M)>, from: u64, limit: u64) -> (r: Vec<(AccountId, M)>)
    requires
        from + limit <= u64::MAX,
    ensures
        named(r@) == page(named(list@), from as int, limit as int),
{
    let len = list.len() as u64;
    let end = if from + limit < len { from + limit } else { len };
    let mut r: Vec<(AccountId, M)> = Vec::new();
    if from >= end {
        proof { assert(named(r@) =~= page(named(list@), from as int, limit as int)); }
        return r;
    }
    let mut i = from;
    while i < end
        invariant
            from <= i <= end,
            end <= list.len(),
            named(r@) == named(list@).subrange(from as int, i as int),
        decreases end - i,
    {
        let k = i as usize;
        let ghost r0 = r@;
        r.push((list[k].0.clone(), list[k].1));
        proof {
            assert(r@ == r0.push(r@[r0.len() as int]));
            assert(named(r@) =~= named(r0).push((list@[k as int].0@, list@[k as int].1)));
            assert(named(list@)[k as int] == (list@[k as int].0@, list@[k as int].1));
            assert(named(r0) == named(list@).subrange(from as int, i as int));
            assert(named(list@).subrange(from as int, i + 1) =~= named(list@).subrange(from as int, i as int).push(named(list@)[i as int]));
            assert(named(r@) =~= named(list@).subrange(from as int, i + 1));
        }
        i = i + 1;
    }
    r
}


/// Inserting accounts never shrinks a set, and leaves it non-empty where the set or
/// the list was non-empty.
pub proof fn lemma_insert_all_keeps_nonempty(s: Seq<AccountId>, list: Seq<AccountId>)
    ensures
        set_insert_all(s, list).len() >= s.len(),
        list.len() > 0 ==> set_insert_all(s, list).len() > 0,
    decreases list.len(),
{
    if list.len() > 0 {
        lemma_insert_all_keeps_nonempty(s, list.drop_last());
        let t = set_insert_all(s, list.drop_last());
        if has_account(t, list.last()@) {
            let i = choose|i: int| 0 <= i < t.len() && (#[trigger] t[i])@ == list.last()@;
            assert(t.len() > i);
        }
    }
}

} // verus!
