use vstd::prelude::*;

use crate::containers::entity::player_data::UserAccess;
use crate::gametypes::game_time::GameTime;
use crate::identity::GlobalKey;

verus! {

/// An online player as the info service reports it.
#[derive(Debug)]
pub struct PlayerInfo {
    pub key: GlobalKey,
    pub username: String,
    pub access: UserAccess,
}

impl PlayerInfo {
    /// A copy with the same key, name and access.
    pub fn duplicate(&self) -> (r: PlayerInfo)
        ensures
            r == *self,
    {
        PlayerInfo { key: self.key, username: self.username.clone(), access: self.access }
    }
}

/// The info service's answers.
#[derive(Debug)]
pub enum InfoOutGoing {
    Nothing,
    SendOnlineUsers(Vec<PlayerInfo>),
}

/// No two entries share a user name.
pub open spec fn unique_names(s: Seq<PlayerInfo>) -> bool {
    forall|i: int, j: int| 0 <= i < j < s.len() ==> s[i].username@ != s[j].username@
}

/// Some entry of `s` is named `name`.
pub open spec fn has_name(s: Seq<PlayerInfo>, name: Seq<char>) -> bool {
    exists|i: int| 0 <= i < s.len() && #[trigger] s[i].username@ == name
}

/// The position of the entry named `name`, when there is one.
pub open spec fn name_index(s: Seq<PlayerInfo>, name: Seq<char>) -> int {
    choose|i: int| 0 <= i < s.len() && #[trigger] s[i].username@ == name
}

/// The entry named `name`, if any.
pub open spec fn find_user(s: Seq<PlayerInfo>, name: Seq<char>) -> Option<PlayerInfo> {
    if has_name(s, name) {
        Some(s[name_index(s, name)])
    } else {
        None
    }
}

/// A login: the entry of that name is replaced, or the player is added.
pub open spec fn spec_login(s: Seq<PlayerInfo>, info: PlayerInfo) -> Seq<PlayerInfo> {
    if has_name(s, info.username@) {
        s.update(name_index(s, info.username@), info)
    } else {
        s.push(info)
    }
}

/// A logout: the entry of that name, if any, goes.
pub open spec fn spec_logout(s: Seq<PlayerInfo>, name: Seq<char>) -> Seq<PlayerInfo> {
    if has_name(s, name) {
        s.remove(name_index(s, name))
    } else {
        s
    }
}

/// In a list without repeated names, the entry at `i` is the one found
/// under its name.
pub proof fn lemma_find_at(s: Seq<PlayerInfo>, i: int)
    requires
        unique_names(s),
        0 <= i < s.len(),
    ensures
        has_name(s, s[i].username@),
        name_index(s, s[i].username@) == i,
        find_user(s, s[i].username@) == Some(s[i]),
{
    let n = s[i].username@;
    assert(has_name(s, n));
    let j = name_index(s, n);
    if j != i {
        if j < i {
            assert(s[j].username@ != s[i].username@);
        } else {
            assert(s[i].username@ != s[j].username@);
        }
    }
}

/// What a login does to the lookups: the name now finds the new entry, every
/// other name finds what it found before; names stay unique, and the list
/// grows by one exactly when the name was new.
pub proof fn lemma_login(s: Seq<PlayerInfo>, info: PlayerInfo)
    requires
        unique_names(s),
    ensures
        unique_names(spec_login(s, info)),
        forall|n: Seq<char>| #[trigger] find_user(spec_login(s, info), n) == (if n == info.username@ {
            Some(info)
        } else {
            find_user(s, n)
        }),
        spec_login(s, info).len() == s.len() + (if has_name(s, info.username@) { 0int } else { 1int }),
{
    let t = spec_login(s, info);
    let name = info.username@;
    if has_name(s, name) {
        let k = name_index(s, name);
        assert(unique_names(t)) by {
            assert forall|i: int, j: int| 0 <= i < j < t.len() implies t[i].username@ != t[j].username@ by {
                assert(s[k].username@ == name);
            }
        }
    } else {
        assert(unique_names(t)) by {
            assert forall|i: int, j: int| 0 <= i < j < t.len() implies t[i].username@ != t[j].username@ by {
                if j == s.len() {
                    assert(s[i].username@ != name);
                }
            }
        }
    }
    assert forall|n: Seq<char>| #[trigger] find_user(t, n) == (if n == name { Some(info) } else { find_user(s, n) }) by {
        if has_name(t, n) {
            let i = name_index(t, n);
            lemma_find_at(t, i);
            if n != name {
                assert(s[i] == t[i]);
                lemma_find_at(s, i);
            } else {
                if has_name(s, name) {
                    lemma_find_at(s, name_index(s, name));
                }
            }
        } else {
            if n == name {
                if has_name(s, name) {
                    lemma_find_at(s, name_index(s, name));
                    assert(t[name_index(s, name)].username@ == n);
                } else {
                    assert(t[s.len() as int].username@ == n);
                }
            } else if has_name(s, n) {
                let i = name_index(s, n);
                assert(t[i].username@ == n);
            }
        }
    }
}

/// What a logout does to the lookups: the name finds nothing any more,
/// every other name finds what it found before; names stay unique, and the
/// list shrinks by one exactly when the name was there.
pub proof fn lemma_logout(s: Seq<PlayerInfo>, name: Seq<char>)
    requires
        unique_names(s),
    ensures
        unique_names(spec_logout(s, name)),
        forall|n: Seq<char>| #[trigger] find_user(spec_logout(s, name), n) == (if n == name {
            None
        } else {
            find_user(s, n)
        }),
        spec_logout(s, name).len() == s.len() - (if has_name(s, name) { 1int } else { 0int }),
{
    let t = spec_logout(s, name);
    if has_name(s, name) {
        let k = name_index(s, name);
        assert(unique_names(t)) by {
            assert forall|i: int, j: int| 0 <= i < j < t.len() implies t[i].username@ != t[j].username@ by {
                let si = if i < k { i } else { i + 1 };
                let sj = if j < k { j } else { j + 1 };
                assert(t[i] == s[si]);
                assert(t[j] == s[sj]);
            }
        }
        assert forall|n: Seq<char>| #[trigger] find_user(t, n) == (if n == name { None } else { find_user(s, n) }) by {
            if has_name(t, n) {
                let i = name_index(t, n);
                lemma_find_at(t, i);
                let si = if i < k { i } else { i + 1 };
                assert(t[i] == s[si]);
                lemma_find_at(s, si);
                lemma_find_at(s, k);
            } else if has_name(s, n) {
                let i = name_index(s, n);
                lemma_find_at(s, i);
                if i != k {
                    let ti = if i < k { i } else { i - 1 };
                    assert(t[ti] == s[i]);
                }
            }
        }
    } else {
        assert forall|n: Seq<char>| #[trigger] find_user(t, n) == (if n == name { None } else { find_user(s, n) }) by {
        }
    }
}

/// A player who logs in under a new name and logs out again leaves every
/// lookup as it was.
pub proof fn lemma_login_logout_restores(s: Seq<PlayerInfo>, info: PlayerInfo, n: Seq<char>)
    requires
        unique_names(s),
        !has_name(s, info.username@),
    ensures
        find_user(spec_logout(spec_login(s, info), info.username@), n) == find_user(s, n),
        spec_logout(spec_login(s, info), info.username@).len() == s.len(),
{
    lemma_login(s, info);
    lemma_logout(spec_login(s, info), info.username@);
    assert(find_user(spec_login(s, info), info.username@) == Some(info));
    if n == info.username@ {
        assert(!has_name(s, n));
    }
}

/// Who is online, by user name, and the game time, as the info service
/// keeps them.
pub struct OnlineUsers {
    pub users: Vec<PlayerInfo>,
    pub game_time: GameTime,
}

impl OnlineUsers {
    pub open spec fn well_formed(&self) -> bool {
        unique_names(self.users@)
    }

    /// The online player of that name, if any.
    pub open spec fn lookup(&self, name: Seq<char>) -> Option<PlayerInfo> {
        find_user(self.users@, name)
    }

    pub fn new(game_time: GameTime) -> (r: OnlineUsers)
        ensures
            r.well_formed(),
            r.users@.len() == 0,
            r.game_time == game_time,
    {
        OnlineUsers { users: Vec::new(), game_time }
    }

    fn position(&self, name: &String) -> (r: Option<usize>)
        requires
            self.well_formed(),
        ensures
            r is Some <==> has_name(self.users@, name@),
            r matches Some(i) ==> i == name_index(self.users@, name@),
    {
        let mut i: usize = 0;
        while i < self.users.len()
            invariant
                i <= self.users@.len(),
                unique_names(self.users@),
                forall|j: int| 0 <= j < i ==> self.users@[j].username@ != name@,
            decreases self.users@.len() - i,
        {
            if self.users[i].username == *name {
                proof {
                    lemma_find_at(self.users@, i as int);
                }
                return Some(i);
            }
            i += 1;
        }
        None
    }

    /// A player logged in: it is listed under its name, replacing any entry
    /// of that name; gives the number of players now online.
    pub fn player_logged_in(&mut self, key: GlobalKey, username: String, access: UserAccess) -> (count: u64)
        requires
            old(self).well_formed(),
        ensures
            final(self).well_formed(),
            final(self).users@ == spec_login(old(self).users@, PlayerInfo { key, username, access }),
            final(self).game_time == old(self).game_time,
            count == final(self).users@.len(),
    {
        let ghost info = PlayerInfo { key, username, access };
        proof {
            lemma_login(self.users@, info);
        }
        match self.position(&username) {
            Some(i) => {
                self.users.set(i, PlayerInfo { key, username, access });
            },
            None => {
                self.users.push(PlayerInfo { key, username, access });
            },
        }
        self.users.len() as u64
    }

    /// A player logged out: its entry, if any, goes; gives the number of
    /// players now online.
    pub fn player_logged_out(&mut self, username: &String) -> (count: u64)
        requires
            old(self).well_formed(),
        ensures
            final(self).well_formed(),
            final(self).users@ == spec_logout(old(self).users@, username@),
            final(self).game_time == old(self).game_time,
            count == final(self).users@.len(),
    {
        proof {
            lemma_logout(self.users@, username@);
        }
        if let Some(i) = self.position(username) {
            self.users.remove(i);
        }
        self.users.len() as u64
    }

    /// The game time moved on.
    pub fn set_time(&mut self, time: GameTime)
        ensures
            final(self).users@ == old(self).users@,
            final(self).game_time == time,
    {
        self.game_time = time;
    }

    /// The answer to a request for the online players: all of them.
    pub fn handle_request(&self) -> (r: InfoOutGoing)
        ensures
            r matches InfoOutGoing::SendOnlineUsers(v) && v@ == self.users@,
    {
        let mut out: Vec<PlayerInfo> = Vec::new();
        let mut i: usize = 0;
        while i < self.users.len()
            invariant
                i <= self.users@.len(),
                out@ == self.users@.take(i as int),
            decreases self.users@.len() - i,
        {
            out.push(self.users[i].duplicate());
            assert(out@ =~= self.users@.take(i as int + 1));
            i += 1;
        }
        assert(out@ =~= self.users@);
        InfoOutGoing::SendOnlineUsers(out)
    }
}

} // verus!
