use vstd::prelude::*;
use vstd::hash_map::StringHashMap;
use crate::saturating_add_u64;

verus! {

/// One entry of the key-value store: a value with an absolute expiry instant.
pub struct StoreEntry {
    pub value: String,
    pub expires_at: u64,
}

/// The mathematical value of a store entry.
pub ghost struct EntryModel {
    pub value: Seq<char>,
    pub expires_at: u64,
}

/// Whether `key` is present and not yet expired at instant `now`.
/// An expired entry behaves exactly like an absent one.
pub open spec fn kv_live(m: Map<Seq<char>, EntryModel>, key: Seq<char>, now: u64) -> bool {
    m.contains_key(key) && now < m[key].expires_at
}

/// What an entry written at `now` with time-to-live `ttl_seconds` looks like.
pub open spec fn entry_written(value: Seq<char>, now: u64, ttl_seconds: u64) -> EntryModel {
    EntryModel {
        value,
        expires_at: if now + ttl_seconds <= u64::MAX {
            (now + ttl_seconds) as u64
        } else {
            u64::MAX
        },
    }
}

/// A key-value store whose entries carry a time-to-live. It backs both the
/// session registry (one live refresh token per user) and the one-time-code
/// store (destructive reads). Time is an explicit parameter: an entry written
/// at `now` with TTL `t` is live at every instant strictly before `now + t`.
pub struct TtlStore {
    entries: StringHashMap<StoreEntry>,
}

impl View for TtlStore {
    type V = Map<Seq<char>, EntryModel>;

    closed spec fn view(&self) -> Map<Seq<char>, EntryModel> {
        Map::new(
            |k: Seq<char>| self.entries@.contains_key(k),
            |k: Seq<char>|
                EntryModel {
                    value: self.entries@[k].value@,
                    expires_at: self.entries@[k].expires_at,
                },
        )
    }
}

impl TtlStore {
    /// Creates an empty store.
    pub fn new() -> (store: TtlStore)
        ensures
            store@ == Map::<Seq<char>, EntryModel>::empty(),
    {
        let store = TtlStore { entries: StringHashMap::new() };
        proof {
            assert(store@ =~= Map::<Seq<char>, EntryModel>::empty());
        }
        store
    }

    /// Writes `value` under `key` with a time-to-live of `ttl_seconds` from
    /// instant `now`. An existing entry is unconditionally overwritten: last
    /// writer wins, which is the rotation primitive.
    pub fn set_ex(&mut self, key: &str, value: &str, ttl_seconds: u64, now: u64)
        ensures
            final(self)@ == old(self)@.insert(key@, entry_written(value@, now, ttl_seconds)),
    {
        let expires_at = saturating_add_u64(now, ttl_seconds);
        self.entries.insert(key.to_owned(), StoreEntry { value: value.to_owned(), expires_at });
        proof {
            assert(self@ =~= old(self)@.insert(key@, entry_written(value@, now, ttl_seconds)));
        }
    }

    /// Reads the value under `key` at instant `now`. An absent or expired
    /// entry reads as `None`; the two cases are indistinguishable.
    pub fn get(&self, key: &str, now: u64) -> (r: Option<String>)
        ensures
            match r {
                Some(v) => kv_live(self@, key@, now) && v@ == self@[key@].value,
                None => !kv_live(self@, key@, now),
            },
    {
        match self.entries.get(key) {
            Some(entry) => {
                if now < entry.expires_at {
                    Some(entry.value.clone())
                } else {
                    None
                }
            },
            None => None,
        }
    }

    /// Atomic get-and-delete: returns the live value under `key` at instant
    /// `now`, if any, and removes the entry either way. A second read of the
    /// same key can never return a value again, which makes consumption
    /// single-use.
    pub fn get_del(&mut self, key: &str, now: u64) -> (r: Option<String>)
        ensures
            final(self)@ == old(self)@.remove(key@),
            match r {
                Some(v) => kv_live(old(self)@, key@, now) && v@ == old(self)@[key@].value,
                None => !kv_live(old(self)@, key@, now),
            },
    {
        let r = self.get(key, now);
        self.entries.remove(key);
        proof {
            assert(self@ =~= old(self)@.remove(key@));
        }
        r
    }

    /// Removes the entry under `key`, if any.
    pub fn delete(&mut self, key: &str)
        ensures
            final(self)@ == old(self)@.remove(key@),
    {
        self.entries.remove(key);
        proof {
            assert(self@ =~= old(self)@.remove(key@));
        }
    }
}

/// One-time codes are single-use: whatever a first consumption of `key`
/// returned, the store afterwards holds no entry under `key`, so a second
/// consumption at any instant finds nothing and reports `NotFound`.
pub proof fn lemma_consume_is_single_use(
    m: Map<Seq<char>, EntryModel>,
    key: Seq<char>,
    now_later: u64,
)
    ensures
        !kv_live(m.remove(key), key, now_later),
{
}

} // verus!
