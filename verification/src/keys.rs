//! The key manager's state: the per-user credential map, mirrored in
//! memory and persisted by the surrounding process. The gateway's key
//! endpoints read and write through it.

use vstd::prelude::*;
use crate::kv::KvVec;

verus! {

/// A stored credential with its owner and update time.
#[derive(Clone, Debug)]
pub struct UserKey {
    pub user_id: String,
    pub api_key: String,
    pub updated_at: i64,
}

/// Maps each user id to that user's credential.
pub struct KeyManager {
    keys: KvVec<String>,
}

impl View for KeyManager {
    type V = Map<Seq<char>, Seq<char>>;

    closed spec fn view(&self) -> Map<Seq<char>, Seq<char>> {
        Map::new(
            |k: Seq<char>| self.keys@.contains_key(k),
            |k: Seq<char>| self.keys@[k]@,
        )
    }
}

impl KeyManager {
    pub closed spec fn wf(&self) -> bool {
        self.keys.wf()
    }

    pub fn new() -> (r: Self)
        ensures
            r.wf(),
            r@ == Map::<Seq<char>, Seq<char>>::empty(),
    {
        let r = KeyManager { keys: KvVec::new() };
        proof {
            assert(r@ =~= Map::<Seq<char>, Seq<char>>::empty());
        }
        r
    }

    /// The user's credential, if one is stored.
    pub fn get_key(&self, user_id: &str) -> (r: Option<String>)
        requires
            self.wf(),
        ensures
            match r {
                Some(k) => self@.contains_key(user_id@) && k@ == self@[user_id@],
                None => !self@.contains_key(user_id@),
            },
    {
        match self.keys.get(user_id) {
            Some(k) => Some(k.clone()),
            None => None,
        }
    }

    /// Stores the user's credential, overwriting any previous one.
    pub fn set_key(&mut self, user_id: &str, api_key: &str) -> (r: Result<(), String>)
        requires
            old(self).wf(),
        ensures
            final(self).wf(),
            final(self)@ == old(self)@.insert(user_id@, api_key@),
            r is Ok,
    {
        self.keys.insert(user_id.to_owned(), api_key.to_owned());
        proof {
            assert(self@ =~= old(self)@.insert(user_id@, api_key@));
        }
        Ok(())
    }
}

} // verus!
