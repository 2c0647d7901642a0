//! The stored rows and the Roblox accounts the bot works with, as plain values.

use vstd::prelude::*;

verus! {

/// A stored ranker account: its row id, Roblox name and id, and credentials.
#[derive(Debug)]
pub struct AccountRecord {
    pub id: String,
    pub roblox_name: String,
    pub roblox_id: i64,
    pub password: String,
    pub cookie: String,
}

pub struct AccountView {
    pub id: Seq<char>,
    pub roblox_name: Seq<char>,
    pub roblox_id: i64,
    pub password: Seq<char>,
    pub cookie: Seq<char>,
}

impl View for AccountRecord {
    type V = AccountView;

    open spec fn view(&self) -> AccountView {
        AccountView {
            id: self.id@,
            roblox_name: self.roblox_name@,
            roblox_id: self.roblox_id,
            password: self.password@,
            cookie: self.cookie@,
        }
    }
}

/// The Roblox profile of a ranker account: id, name, and creation date as
/// day/month/year.
#[derive(Debug)]
pub struct RankerProfile {
    pub id: i64,
    pub name: String,
    pub created: String,
}

/// A ranker account that logged in at start-up: its stored row, its Roblox
/// profile, and the ids of the groups it belongs to.
#[derive(Debug)]
pub struct RankerAccount {
    pub model: AccountRecord,
    pub roblox: RankerProfile,
    pub groups: Vec<i64>,
}

pub struct RankerView {
    pub id: i64,
    pub name: Seq<char>,
    pub created: Seq<char>,
    pub group_count: nat,
}

impl View for RankerAccount {
    type V = RankerView;

    open spec fn view(&self) -> RankerView {
        RankerView {
            id: self.roblox.id,
            name: self.roblox.name@,
            created: self.roblox.created@,
            group_count: self.groups@.len(),
        }
    }
}

pub open spec fn rankers_view(rs: Seq<RankerAccount>) -> Seq<RankerView> {
    rs.map_values(|r: RankerAccount| r@)
}

pub open spec fn accounts_view(accs: Seq<AccountRecord>) -> Seq<AccountView> {
    accs.map_values(|a: AccountRecord| a@)
}

/// The first ranker whose Roblox id is `id`.
pub open spec fn ranker_with_id(rs: Seq<RankerView>, id: i64) -> Option<RankerView>
    decreases rs.len(),
{
    if rs.len() == 0 {
        None
    } else if rs[0].id == id {
        Some(rs[0])
    } else {
        ranker_with_id(rs.drop_first(), id)
    }
}

/// The first ranker whose Roblox name contains `part`.
pub open spec fn ranker_named_like(rs: Seq<RankerView>, part: Seq<char>) -> Option<RankerView>
    decreases rs.len(),
{
    if rs.len() == 0 {
        None
    } else if crate::text::seq_contains(rs[0].name, part) {
        Some(rs[0])
    } else {
        ranker_named_like(rs.drop_first(), part)
    }
}

/// Finds the first ranker with this Roblox id.
pub fn find_ranker_by_id(rankers: &Vec<RankerAccount>, id: i64) -> (r: Option<&RankerAccount>)
    ensures
        match r {
            Some(x) => ranker_with_id(rankers_view(rankers@), id) == Some(x@),
            None => ranker_with_id(rankers_view(rankers@), id) is None,
        },
{
    let n = rankers.len();
    let mut i: usize = 0;
    let ghost all = rankers_view(rankers@);
    assert(all.subrange(0, n as int) =~= all);
    while i < n
        invariant
            n == rankers@.len(),
            all == rankers_view(rankers@),
            i <= n,
            ranker_with_id(all, id) == ranker_with_id(all.subrange(i as int, n as int), id),
        decreases n - i,
    {
        assert(all.subrange(i as int, n as int)[0] == rankers@[i as int]@);
        if rankers[i].roblox.id == id {
            return Some(&rankers[i]);
        }
        assert(all.subrange(i as int, n as int).drop_first() =~= all.subrange(i + 1, n as int));
        i = i + 1;
    }
    None
}

/// Finds the first ranker whose Roblox name contains `part`.
pub fn find_ranker_by_name<'a>(rankers: &'a Vec<RankerAccount>, part: &str) -> (r: Option<&'a RankerAccount>)
    ensures
        match r {
            Some(x) => ranker_named_like(rankers_view(rankers@), part@) == Some(x@),
            None => ranker_named_like(rankers_view(rankers@), part@) is None,
        },
{
    let n = rankers.len();
    let mut i: usize = 0;
    let ghost all = rankers_view(rankers@);
    assert(all.subrange(0, n as int) =~= all);
    while i < n
        invariant
            n == rankers@.len(),
            all == rankers_view(rankers@),
            i <= n,
            ranker_named_like(all, part@) == ranker_named_like(all.subrange(i as int, n as int), part@),
        decreases n - i,
    {
        assert(all.subrange(i as int, n as int)[0] == rankers@[i as int]@);
        if crate::text::contains(rankers[i].roblox.name.as_str(), part) {
            return Some(&rankers[i]);
        }
        assert(all.subrange(i as int, n as int).drop_first() =~= all.subrange(i + 1, n as int));
        i = i + 1;
    }
    None
}


/// A ranker with the id is found exactly when one is in the list, wherever it
/// stands; what is found is the first ranker in the list with that id.
pub proof fn lemma_ranker_with_id_finds_first(rs: Seq<RankerView>, id: i64)
    ensures
        (exists|i: int| 0 <= i < rs.len() && #[trigger] rs[i].id == id) <==> ranker_with_id(rs, id) is Some,
        ranker_with_id(rs, id) matches Some(r) ==> exists|i: int|
            0 <= i < rs.len() && #[trigger] rs[i] == r && r.id == id && (forall|j: int| 0 <= j < i ==> rs[j].id != id),
    decreases rs.len(),
{
    if rs.len() > 0 && rs[0].id != id {
        let tail = rs.drop_first();
        lemma_ranker_with_id_finds_first(tail, id);
        if exists|i: int| 0 <= i < rs.len() && #[trigger] rs[i].id == id {
            let i = choose|i: int| 0 <= i < rs.len() && #[trigger] rs[i].id == id;
            assert(tail[i - 1].id == id);
        }
        if ranker_with_id(rs, id) is Some {
            let r = ranker_with_id(rs, id)->0;
            let k = choose|k: int| 0 <= k < tail.len() && #[trigger] tail[k] == r && r.id == id && (forall|j: int| 0 <= j < k ==> tail[j].id != id);
            assert(rs[k + 1] == r);
            assert forall|j: int| 0 <= j < k + 1 implies rs[j].id != id by {
                if j > 0 { assert(rs[j] == tail[j - 1]); }
            }
        }
    } else if rs.len() > 0 {
        assert(rs[0] == rs[0]);
    }
}

/// A ranker whose name contains `part` is found exactly when one is in the
/// list, wherever it stands; what is found is the first such ranker.
pub proof fn lemma_ranker_named_like_finds_first(rs: Seq<RankerView>, part: Seq<char>)
    ensures
        (exists|i: int| 0 <= i < rs.len() && crate::text::seq_contains(#[trigger] rs[i].name, part)) <==> ranker_named_like(rs, part) is Some,
        ranker_named_like(rs, part) matches Some(r) ==> exists|i: int|
            0 <= i < rs.len() && #[trigger] rs[i] == r && crate::text::seq_contains(r.name, part)
                && (forall|j: int| 0 <= j < i ==> !crate::text::seq_contains(rs[j].name, part)),
    decreases rs.len(),
{
    if rs.len() > 0 && !crate::text::seq_contains(rs[0].name, part) {
        let tail = rs.drop_first();
        lemma_ranker_named_like_finds_first(tail, part);
        if exists|i: int| 0 <= i < rs.len() && crate::text::seq_contains(#[trigger] rs[i].name, part) {
            let i = choose|i: int| 0 <= i < rs.len() && crate::text::seq_contains(#[trigger] rs[i].name, part);
            assert(tail[i - 1].name == rs[i].name);
        }
        if ranker_named_like(rs, part) is Some {
            let r = ranker_named_like(rs, part)->0;
            let k = choose|k: int| 0 <= k < tail.len() && #[trigger] tail[k] == r && crate::text::seq_contains(r.name, part)
                && (forall|j: int| 0 <= j < k ==> !crate::text::seq_contains(tail[j].name, part));
            assert(rs[k + 1] == r);
            assert forall|j: int| 0 <= j < k + 1 implies !crate::text::seq_contains(rs[j].name, part) by {
                if j > 0 { assert(rs[j] == tail[j - 1]); }
            }
        }
    } else if rs.len() > 0 {
        assert(rs[0] == rs[0]);
    }
}

} // verus!
