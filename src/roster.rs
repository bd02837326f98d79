//! The roster: the users connected now, as the latest users frame lists them.
use vstd::prelude::*;

verus! {

/// The avatar picture of a user, derived from the name alone.
pub open spec fn avatar_url(name: Seq<char>) -> Seq<char> {
    "https://avatars.dicebear.com/api/adventurer-neutral/"@ + name + ".svg"@
}

/// The avatar picture of a user.
pub fn avatar_url_for(name: &String) -> (r: String)
    ensures
        r@ == avatar_url(name@),
{
    let url = String::from_str("https://avatars.dicebear.com/api/adventurer-neutral/");
    let url = url.concat(name.as_str());
    url.concat(".svg")
}

/// A connected user.
#[derive(Clone, Debug)]
pub struct UserProfile {
    pub name: String,
    pub avatar: String,
}

/// A connected user as plain values.
pub struct UserProfileV {
    pub name: Seq<char>,
    pub avatar: Seq<char>,
}

impl View for UserProfile {
    type V = UserProfileV;

    open spec fn view(&self) -> UserProfileV {
        UserProfileV { name: self.name@, avatar: self.avatar@ }
    }
}

/// The profile of the user of that name.
pub open spec fn profile_of(name: Seq<char>) -> UserProfileV {
    UserProfileV { name, avatar: avatar_url(name) }
}

/// The names in order of their first occurrence, each once.
pub open spec fn distinct_names(names: Seq<Seq<char>>) -> Seq<Seq<char>>
    decreases names.len(),
{
    if names.len() == 0 {
        Seq::empty()
    } else {
        let seen = distinct_names(names.drop_last());
        if seen.contains(names.last()) {
            seen
        } else {
            seen.push(names.last())
        }
    }
}

/// The roster that a users frame listing `names` gives.
pub open spec fn roster_of(names: Seq<Seq<char>>) -> Seq<UserProfileV> {
    distinct_names(names).map_values(|n: Seq<char>| profile_of(n))
}

/// The views of a sequence of profiles.
pub open spec fn profiles_view(users: Seq<UserProfile>) -> Seq<UserProfileV> {
    users.map_values(|u: UserProfile| u@)
}

/// The current roster. Each name stands in it at most once.
pub struct Roster {
    users: Vec<UserProfile>,
}

impl View for Roster {
    type V = Seq<UserProfileV>;

    closed spec fn view(&self) -> Seq<UserProfileV> {
        profiles_view(self.users@)
    }
}

/// Each name of `names` stands in it once, and nothing else does.
pub proof fn lemma_distinct_names(names: Seq<Seq<char>>)
    ensures
        distinct_names(names).no_duplicates(),
        forall|n: Seq<char>| distinct_names(names).contains(n) <==> names.contains(n),
    decreases names.len(),
{
    if names.len() > 0 {
        let init = names.drop_last();
        lemma_distinct_names(init);
        assert(names =~= init.push(names.last()));
        assert forall|n: Seq<char>| names.contains(n) <==> (init.contains(n) || n == names.last()) by {
            if names.contains(n) {
                let k = choose|k: int| 0 <= k < names.len() && names[k] == n;
                if k < init.len() {
                    assert(init[k] == n);
                }
            }
            if init.contains(n) {
                let k = choose|k: int| 0 <= k < init.len() && init[k] == n;
                assert(names[k] == n);
            }
            if n == names.last() {
                assert(names[names.len() - 1] == n);
            }
        }
        let seen = distinct_names(init);
        if !seen.contains(names.last()) {
            assert forall|n: Seq<char>| seen.push(names.last()).contains(n) <==> (seen.contains(n) || n == names.last()) by {
                if seen.push(names.last()).contains(n) {
                    let k = choose|k: int| 0 <= k < seen.len() + 1 && seen.push(names.last())[k] == n;
                    if k < seen.len() {
                        assert(seen[k] == n);
                    }
                }
                if seen.contains(n) {
                    let k = choose|k: int| 0 <= k < seen.len() && seen[k] == n;
                    assert(seen.push(names.last())[k] == n);
                }
                if n == names.last() {
                    assert(seen.push(names.last())[seen.len() as int] == n);
                }
            }
        }
    }
}

impl Roster {
    /// No user has more than one entry, and each entry's avatar is derived
    /// from its name.
    pub open spec fn wf(&self) -> bool {
        &&& forall|i: int, j: int|
            0 <= i < j < self@.len() ==> self@[i].name != self@[j].name
        &&& forall|i: int| 0 <= i < self@.len() ==> #[trigger] self@[i] == profile_of(self@[i].name)
    }

    /// The roster of nobody.
    pub fn new() -> (r: Roster)
        ensures
            r@ == Seq::<UserProfileV>::empty(),
            r.wf(),
    {
        let r = Roster { users: Vec::new() };
        assert(r@ =~= Seq::<UserProfileV>::empty());
        r
    }

    /// Replaces the whole roster with the users that `names` lists: in order
    /// of first occurrence, each name once.
    pub fn replace(&mut self, names: &Vec<String>)
        ensures
            final(self)@ == roster_of(names.deep_view()),
            final(self).wf(),
    {
        let mut users: Vec<UserProfile> = Vec::new();
        let ghost all = names.deep_view();
        let mut i: usize = 0;
        while i < names.len()
            invariant
                i <= names.len(),
                all == names.deep_view(),
                users.len() == distinct_names(all.take(i as int)).len(),
                forall|j: int|
                    0 <= j < users.len() ==> (#[trigger] users@[j])@ == profile_of(
                        distinct_names(all.take(i as int))[j],
                    ),
            decreases names.len() - i,
        {
            let ghost seen = distinct_names(all.take(i as int));
            let name = &names[i];
            assert(all.take(i + 1).drop_last() =~= all.take(i as int));
            assert(all.take(i + 1).last() == name@);
            let mut found = false;
            let mut j: usize = 0;
            while j < users.len()
                invariant
                    j <= users.len(),
                    users.len() == seen.len(),
                    forall|k: int| 0 <= k < users.len() ==> (#[trigger] users@[k])@ == profile_of(seen[k]),
                    found <==> exists|k: int| 0 <= k < j && seen[k] == name@,
                decreases users.len() - j,
            {
                if users[j].name == *name {
                    assert(users@[j as int]@ == profile_of(seen[j as int]));
                    found = true;
                }
                j = j + 1;
            }
            assert(found <==> seen.contains(name@));
            if !found {
                let avatar = avatar_url_for(name);
                users.push(UserProfile { name: name.clone(), avatar });
            }
            i = i + 1;
        }
        assert(all.take(names.len() as int) =~= all);
        self.users = users;
        assert(self@ =~= roster_of(all));
        proof {
            lemma_distinct_names(all);
            let d = distinct_names(all);
            assert forall|a: int, b: int| 0 <= a < b < self@.len() implies self@[a].name != self@[b].name by {
                assert(self@[a].name == d[a]);
                assert(self@[b].name == d[b]);
            }
        }
    }

    /// The users connected now.
    pub fn current(&self) -> (r: &Vec<UserProfile>)
        ensures
            profiles_view(r@) == self@,
    {
        &self.users
    }

    /// The avatar of the user of that name, if the roster lists one.
    pub fn avatar_for(&self, name: &String) -> (r: Option<String>)
        ensures
            match r {
                Some(a) => exists|i: int|
                    0 <= i < self@.len() && self@[i].name == name@ && self@[i].avatar == a@,
                None => forall|i: int| 0 <= i < self@.len() ==> self@[i].name != name@,
            },
    {
        let mut i: usize = 0;
        while i < self.users.len()
            invariant
                i <= self.users.len(),
                forall|k: int| 0 <= k < i ==> self@[k].name != name@,
            decreases self.users.len() - i,
        {
            if self.users[i].name == *name {
                assert(self@[i as int].name == name@);
                return Some(self.users[i].avatar.clone());
            }
            i = i + 1;
        }
        None
    }
}

} // verus!
