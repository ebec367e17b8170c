//! The credential directory: an immutable mapping from identity name to
//! secret, populated once at start-up and read-only thereafter.

use vstd::prelude::*;

verus! {

/// The mathematical content of a list of (identity, secret) pairs: the pairs
/// folded into a map in list order, so a later pair for the same identity
/// shadows an earlier one (last write wins).
spec fn pairs_map(s: Seq<(String, String)>) -> Map<Seq<char>, Seq<char>>
    decreases s.len(),
{
    if s.len() == 0 {
        Map::empty()
    } else {
        pairs_map(s.drop_last()).insert(s.last().0@, s.last().1@)
    }
}

/// Fixed mapping from identity name to secret. Duplicate identities in the
/// construction data are resolved deterministically: the last write wins.
pub struct CredentialDirectory {
    entries: Vec<(String, String)>,
}

impl View for CredentialDirectory {
    type V = Map<Seq<char>, Seq<char>>;

    closed spec fn view(&self) -> Map<Seq<char>, Seq<char>> {
        pairs_map(self.entries@)
    }
}

impl CredentialDirectory {
    /// An empty directory: no identity is known.
    pub fn new() -> (d: Self)
        ensures
            d@ == Map::<Seq<char>, Seq<char>>::empty(),
    {
        CredentialDirectory { entries: Vec::new() }
    }

    /// Records a pair; an earlier secret for the same identity is replaced
    /// (last write wins).
    pub fn insert(&mut self, identity: String, secret: String)
        ensures
            final(self)@ == old(self)@.insert(identity@, secret@),
    {
        let ghost before = self.entries@;
        let ghost pair = (identity, secret);
        self.entries.push((identity, secret));
        proof {
            assert(self.entries@.drop_last() =~= before);
            assert(self.entries@.last() == pair);
        }
    }

    /// Answers "does the identity have a secret on record, and which?" —
    /// pure, total over all inputs, absent for an unknown identity.
    pub fn lookup(&self, identity: &str) -> (r: Option<String>)
        ensures
            match r {
                Some(secret) => self@.contains_key(identity@) && secret@ == self@[identity@],
                None => !self@.contains_key(identity@),
            },
    {
        let key: String = identity.to_owned();
        let mut i: usize = self.entries.len();
        proof {
            assert(self.entries@.take(i as int) =~= self.entries@);
        }
        while i > 0
            invariant
                i <= self.entries@.len(),
                key@ == identity@,
                pairs_map(self.entries@).contains_key(identity@) == pairs_map(
                    self.entries@.take(i as int),
                ).contains_key(identity@),
                pairs_map(self.entries@).contains_key(identity@) ==> pairs_map(self.entries@)[identity@]
                    == pairs_map(self.entries@.take(i as int))[identity@],
            decreases i,
        {
            i = i - 1;
            proof {
                assert(self.entries@.take(i + 1).drop_last() =~= self.entries@.take(i as int));
                assert(self.entries@.take(i + 1).last() == self.entries@[i as int]);
                assert(pairs_map(self.entries@.take(i + 1)) == pairs_map(
                    self.entries@.take(i as int),
                ).insert(self.entries@[i as int].0@, self.entries@[i as int].1@));
            }
            if self.entries[i].0 == key {
                return Some(self.entries[i].1.clone());
            }
        }
        proof {
            assert(self.entries@.take(0) =~= Seq::<(String, String)>::empty());
        }
        None
    }
}

/// The fixed credential table the portal is configured with.
pub open spec fn valid_users() -> Map<Seq<char>, Seq<char>> {
    Map::<Seq<char>, Seq<char>>::empty().insert(
        "manetas & stevens associates"@,
        "123"@,
    ).insert("admin"@, "admin123"@).insert("user1"@, "password1"@).insert("user2"@, "password2"@)
}

/// Builds the directory holding exactly the portal's fixed credential table.
pub fn get_valid_users() -> (d: CredentialDirectory)
    ensures
        d@ == valid_users(),
{
    let mut users = CredentialDirectory::new();
    users.insert("manetas & stevens associates".to_owned(), "123".to_owned());
    users.insert("admin".to_owned(), "admin123".to_owned());
    users.insert("user1".to_owned(), "password1".to_owned());
    users.insert("user2".to_owned(), "password2".to_owned());
    users
}

} // verus!
