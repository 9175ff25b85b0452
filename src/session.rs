use vstd::prelude::*;

verus! {

/// The file, under the storage directory, that holds the current session.
pub const SESSION_FILE: &'static str = "session.json";

/// An authenticated identity bound to a homeserver.
#[derive(Debug, PartialEq, Eq)]
pub struct Session {
    pub user_id: String,
    pub device_id: String,
    pub access_token: String,
    pub refresh_token: Option<String>,
}

/// `user_id` has the shape `@localpart:server`, with a non-empty localpart
/// that holds no `:`, and `server` non-empty.
pub open spec fn names_server(user_id: Seq<char>, server: Seq<char>) -> bool {
    let k = user_id.len() - server.len() - 1;
    &&& server.len() > 0
    &&& 2 <= k
    &&& user_id[0] == '@'
    &&& user_id[k] == ':'
    &&& forall|i: int| 1 <= i < k ==> user_id[i] != ':'
    &&& user_id.subrange(k + 1, user_id.len() as int) == server
}

impl Session {
    /// A session is usable with `server` when its required fields are
    /// non-empty and its user id belongs to that server.
    pub open spec fn valid_for(self, server: Seq<char>) -> bool {
        &&& self.device_id@.len() > 0
        &&& self.access_token@.len() > 0
        &&& names_server(self.user_id@, server)
    }

    pub fn is_valid_for(&self, server: &str) -> (r: bool)
        ensures
            r == self.valid_for(server@),
    {
        self.device_id.as_str().unicode_len() > 0 && self.access_token.as_str().unicode_len() > 0
            && user_id_names_server(self.user_id.as_str(), server)
    }
}

/// Whether `user_id` is of the form `@localpart:server`.
pub fn user_id_names_server(user_id: &str, server: &str) -> (r: bool)
    ensures
        r == names_server(user_id@, server@),
{
    let n = user_id.unicode_len();
    let m = server.unicode_len();
    if m == 0 || n < m || n - m < 3 {
        return false;
    }
    let k = n - m - 1;
    if user_id.get_char(0) != '@' || user_id.get_char(k) != ':' {
        return false;
    }
    let mut i: usize = 1;
    while i < k
        invariant
            1 <= i <= k,
            k + 1 + m == n,
            n == user_id@.len(),
            m == server@.len(),
            forall|t: int| 1 <= t < i ==> user_id@[t] != ':',
        decreases k - i,
    {
        if user_id.get_char(i) == ':' {
            return false;
        }
        i = i + 1;
    }
    let mut j: usize = 0;
    while j < m
        invariant
            j <= m,
            k + 1 + m == n,
            n == user_id@.len(),
            m == server@.len(),
            forall|t: int| 0 <= t < j ==> user_id@[k + 1 + t] == server@[t],
        decreases m - j,
    {
        if user_id.get_char(k + 1 + j) != server.get_char(j) {
            assert(user_id@.subrange(k + 1, n as int)[j as int] != server@[j as int]);
            return false;
        }
        j = j + 1;
    }
    assert(user_id@.subrange(k + 1, n as int) =~= server@);
    true
}

} // verus!
