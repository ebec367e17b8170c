//! The auth core: composes the credential directory and the session store
//! into the three operations of the portal, and fixes their observable
//! behaviour.
//!
//! The state machine has two states, no-session and active(identity). A
//! successful authenticate moves any state to active(new identity); a failed
//! one is a self-loop; end-session moves any state to no-session; and
//! query-session never changes state. The spec functions below are that
//! machine; each operation's contract ties the executable code to it.

use vstd::prelude::*;

use crate::directory::CredentialDirectory;
use crate::session::SessionStore;
use crate::types::LoginResponse;
use crate::types::UserInfo;

verus! {

/// Whether the offered (identity, secret) pair matches the directory.
pub open spec fn check_credentials(
    dir: Map<Seq<char>, Seq<char>>,
    identity: Seq<char>,
    secret: Seq<char>,
) -> bool {
    dir.contains_key(identity) && dir[identity] == secret
}

/// The session state after an authenticate operation: a matching pair
/// overwrites any prior session with the new identity; a mismatch leaves
/// the state exactly as it was.
pub open spec fn authenticate_next(
    dir: Map<Seq<char>, Seq<char>>,
    session: Option<Seq<char>>,
    identity: Seq<char>,
    secret: Seq<char>,
) -> Option<Seq<char>> {
    if check_credentials(dir, identity, secret) {
        Some(identity)
    } else {
        session
    }
}

/// The session state after an end-session operation: empty, whatever held
/// before.
pub open spec fn end_session_next(session: Option<Seq<char>>) -> Option<Seq<char>> {
    None
}

/// The single-threaded auth core: the credential directory it was configured
/// with and the one session slot. Exclusive access comes from `&mut`; the
/// lock-guarded portal shares one core between concurrent callers.
pub struct AuthCore {
    directory: CredentialDirectory,
    store: SessionStore,
}

impl AuthCore {
    /// The directory's mapping from identity name to secret.
    pub closed spec fn dir(&self) -> Map<Seq<char>, Seq<char>> {
        self.directory@
    }

    /// The current session: the authenticated identity, or none.
    pub closed spec fn session(&self) -> Option<Seq<char>> {
        self.store@
    }

    /// A core over the injected directory, starting with no session active.
    pub fn new(directory: CredentialDirectory) -> (core: Self)
        ensures
            core.dir() == directory@,
            core.session() is None,
    {
        AuthCore { directory, store: SessionStore::new() }
    }

    /// Validates the offered pair against the directory. On a match the new
    /// identity overwrites any prior session (a re-login replaces, it does
    /// not reject); on a mismatch the session is untouched and one generic
    /// message covers both the unknown-identity and the wrong-secret case,
    /// so a caller cannot tell which field was wrong.
    pub fn authenticate(&mut self, identity: &str, secret: &str) -> (r: LoginResponse)
        ensures
            final(self).dir() == old(self).dir(),
            final(self).session() == authenticate_next(
                old(self).dir(),
                old(self).session(),
                identity@,
                secret@,
            ),
            r.success == check_credentials(old(self).dir(), identity@, secret@),
            r.success ==> r.message@ == "Login successful"@,
            !r.success ==> r.message@ == "Invalid username or password"@,
    {
        match self.directory.lookup(identity) {
            Some(stored_secret) => {
                if stored_secret == secret.to_owned() {
                    self.store.set(identity.to_owned());
                    return LoginResponse {
                        success: true,
                        message: "Login successful".to_owned(),
                    };
                }
            },
            None => {},
        }
        LoginResponse { success: false, message: "Invalid username or password".to_owned() }
    }

    /// Clears the session unconditionally and always reports success: there
    /// is no failure mode for ending a session that does not exist.
    pub fn end_session(&mut self) -> (r: LoginResponse)
        ensures
            final(self).dir() == old(self).dir(),
            final(self).session() == end_session_next(old(self).session()),
            r.success,
            r.message@ == "Logged out successfully"@,
    {
        self.store.clear();
        LoginResponse { success: true, message: "Logged out successfully".to_owned() }
    }

    /// Reports the current session without changing it: the authenticated
    /// identity when one is active, the empty string otherwise.
    pub fn query_session(&self) -> (r: UserInfo)
        ensures
            r.logged_in == (self.session() is Some),
            self.session() matches Some(identity) ==> r.username@ == identity,
            self.session() is None ==> r.username@ == Seq::<char>::empty(),
    {
        match self.store.snapshot() {
            Some(identity) => UserInfo { username: identity, logged_in: true },
            None => UserInfo { username: String::new(), logged_in: false },
        }
    }
}

/// An identity the directory does not know is rejected and leaves the
/// session state exactly as it was, whatever secret was offered.
pub proof fn lemma_unknown_identity_rejected(
    dir: Map<Seq<char>, Seq<char>>,
    session: Option<Seq<char>>,
    identity: Seq<char>,
    secret: Seq<char>,
)
    requires
        !dir.contains_key(identity),
    ensures
        !check_credentials(dir, identity, secret),
        authenticate_next(dir, session, identity, secret) == session,
{
}

/// A known identity offered with a mismatching secret is rejected and leaves
/// the session state exactly as it was.
pub proof fn lemma_wrong_secret_rejected(
    dir: Map<Seq<char>, Seq<char>>,
    session: Option<Seq<char>>,
    identity: Seq<char>,
    secret: Seq<char>,
)
    requires
        dir.contains_key(identity),
        dir[identity] != secret,
    ensures
        !check_credentials(dir, identity, secret),
        authenticate_next(dir, session, identity, secret) == session,
{
}

/// A matching pair overwrites the session with the new identity from every
/// prior state, active or not: the slot holds one session, never two.
pub proof fn lemma_relogin_overwrites(
    dir: Map<Seq<char>, Seq<char>>,
    session: Option<Seq<char>>,
    identity: Seq<char>,
    secret: Seq<char>,
)
    requires
        check_credentials(dir, identity, secret),
    ensures
        authenticate_next(dir, session, identity, secret) == Some(identity),
{
}

/// End-session empties the slot from every prior state, including the state
/// where no session was ever active.
pub proof fn lemma_end_session_clears(session: Option<Seq<char>>)
    ensures
        end_session_next(session) is None,
{
}

/// Ending a session twice in a row leaves the same state as ending it once:
/// end-session is idempotent.
pub proof fn lemma_end_session_idempotent(session: Option<Seq<char>>)
    ensures
        end_session_next(end_session_next(session)) == end_session_next(session),
{
}

} // verus!
