//! The portal facade: one auth core behind a verified reader-writer lock, so
//! that a host runtime may dispatch authenticate, end-session and
//! query-session from concurrent caller contexts without serializing them.
//!
//! Every access acquires the one lock, so each operation observes and leaves
//! a consistent snapshot: a torn or interleaved partial write of the session
//! slot cannot be observed. The lock invariant pins what every reachable
//! state looks like — the directory never changes, and the slot only ever
//! holds an identity the directory knows.

use vstd::prelude::*;
use vstd::rwlock::RwLock;
use vstd::rwlock::RwLockPredicate;

use crate::auth::AuthCore;
use crate::auth::check_credentials;
use crate::directory::CredentialDirectory;
use crate::types::LoginRequest;
use crate::types::LoginResponse;
use crate::types::UserInfo;

verus! {

/// The lock invariant: every state the guarded core can be in.
pub struct CorePred {
    pub dir: Map<Seq<char>, Seq<char>>,
}

impl RwLockPredicate<AuthCore> for CorePred {
    open spec fn inv(self, core: AuthCore) -> bool {
        &&& core.dir() == self.dir
        &&& (core.session() matches Some(identity) ==> self.dir.contains_key(identity))
    }
}

/// The process-wide service surface: a single auth core shared between
/// concurrent callers through one mutual-exclusion mechanism, created once
/// at start-up and never recreated.
pub struct AuthPortal {
    inner: RwLock<AuthCore, CorePred>,
}

impl AuthPortal {
    /// The directory's mapping from identity name to secret.
    pub closed spec fn dir(&self) -> Map<Seq<char>, Seq<char>> {
        self.inner.pred().dir
    }

    /// A portal over the injected directory, starting with no session active.
    pub fn new(directory: CredentialDirectory) -> (portal: Self)
        ensures
            portal.dir() == directory@,
    {
        let auth_core = AuthCore::new(directory);
        let ghost pred = CorePred { dir: auth_core.dir() };
        AuthPortal { inner: RwLock::new(auth_core, Ghost(pred)) }
    }

    /// Authenticate under the lock. The success flag and the message depend
    /// only on the immutable directory and the request, so they are exact
    /// even under concurrent invocation; on success the slot now holds the
    /// request's identity until a later operation changes it.
    pub fn authenticate(&self, request: &LoginRequest) -> (r: LoginResponse)
        ensures
            r.success == check_credentials(self.dir(), request.username@, request.password@),
            r.success ==> r.message@ == "Login successful"@,
            !r.success ==> r.message@ == "Invalid username or password"@,
    {
        let (mut auth_core, handle) = self.inner.acquire_write();
        let r = auth_core.authenticate(request.username.as_str(), request.password.as_str());
        handle.release_write(auth_core);
        r
    }

    /// End the session under the lock. Always succeeds, whatever state any
    /// interleaved caller left behind.
    pub fn end_session(&self) -> (r: LoginResponse)
        ensures
            r.success,
            r.message@ == "Logged out successfully"@,
    {
        let (mut auth_core, handle) = self.inner.acquire_write();
        let r = auth_core.end_session();
        handle.release_write(auth_core);
        r
    }

    /// Read the session under the lock, without mutation, at any frequency.
    /// Whatever interleaving happened, the answer is a state the store
    /// really passed through: either no session, or an identity the
    /// directory knows.
    pub fn query_session(&self) -> (r: UserInfo)
        ensures
            r.logged_in ==> self.dir().contains_key(r.username@),
            !r.logged_in ==> r.username@ == Seq::<char>::empty(),
    {
        let handle = self.inner.acquire_read();
        let r = handle.borrow().query_session();
        handle.release_read();
        r
    }
}

} // verus!
