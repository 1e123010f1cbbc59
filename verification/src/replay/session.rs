//! The decisions a replay session makes around the framework calls that
//! open it: the bundle's shape, the bootstrap's status codes, the load's
//! outcome, and the log of errors the replayer reports to its observer.

use crate::replay::error::SessionError;
use crate::replay::util::{truncate, truncated};
use crate::sys::env::UnlockEnvError;
use vstd::prelude::*;
use vstd::string::*;

verus! {

broadcast use vstd::std_specs::vec::group_vec_axioms;

/// The verdict on a bundle's shape, checked before any framework call: the
/// bundle must exist, then hold an `index` file, then a `metadata` file.
/// `display` is how the bundle's path is shown in the error.
pub fn check_bundle_shape(display: &str, exists: bool, has_index: bool, has_metadata: bool) -> (r: Result<
    (),
    SessionError,
>)
    ensures
        !exists ==> (r matches Err(SessionError::BadBundle(s)) && s@ == "no capture bundle at "@
            + display@),
        exists && !has_index ==> (r matches Err(SessionError::BadBundle(s)) && s@ == display@
            + " is not a capture bundle: it has no index file"@),
        exists && has_index && !has_metadata ==> (r matches Err(SessionError::BadBundle(s)) && s@
            == display@ + " is not a capture bundle: it has no metadata file"@),
        exists && has_index && has_metadata ==> r is Ok,
{
    if !exists {
        return Err(
            SessionError::BadBundle(String::from_str("no capture bundle at ").concat(display)),
        );
    }
    if !has_index {
        return Err(
            SessionError::BadBundle(
                String::from_str(display).concat(" is not a capture bundle: it has no index file"),
            ),
        );
    }
    if !has_metadata {
        return Err(
            SessionError::BadBundle(
                String::from_str(display).concat(" is not a capture bundle: it has no metadata file"),
            ),
        );
    }
    Ok(())
}

/// The error for a bundle path that is not valid UTF-8.
pub fn path_not_utf8(display: &str) -> (e: SessionError)
    ensures
        e matches SessionError::BadBundle(s) && s@ == "bundle path "@ + display@
            + " is not valid UTF-8"@,
{
    SessionError::BadBundle(String::from_str("bundle path ").concat(display).concat(" is not valid UTF-8"))
}

/// The error for an unlock variable that is not `"0"`: its message.
pub fn unlock_error(e: &UnlockEnvError) -> (r: SessionError)
    ensures
        r matches SessionError::UnlockEnv(s) && s@ == e.spec_message(),
{
    SessionError::UnlockEnv(e.message())
}

/// The verdict on an APR bootstrap step: a non-zero status, or a pool that
/// was not created, fails with that status.
pub fn apr_verdict(rc: i32, pool_missing: bool) -> (r: Result<(), SessionError>)
    ensures
        (rc != 0 || pool_missing) ==> (r matches Err(SessionError::Apr { code }) && code == rc),
        (rc == 0 && !pool_missing) ==> r is Ok,
{
    if rc != 0 || pool_missing {
        Err(SessionError::Apr { code: rc })
    } else {
        Ok(())
    }
}

/// The verdict on obtaining the replay service: its class must be
/// registered, then an instance constructed.
pub fn service_verdict(registered: bool, constructed: bool) -> (r: Result<(), SessionError>)
    ensures
        !registered ==> (r matches Err(SessionError::Replayer { message }) && message@
            == "the GTMTLReplayService class is not registered; GPUToolsReplay did not load"@),
        registered && !constructed ==> (r matches Err(SessionError::Replayer { message })
            && message@ == "GTMTLReplayService could not be constructed"@),
        registered && constructed ==> r is Ok,
{
    if !registered {
        return Err(
            SessionError::Replayer {
                message: String::from_str(
                    "the GTMTLReplayService class is not registered; GPUToolsReplay did not load",
                ),
            },
        );
    }
    if !constructed {
        return Err(
            SessionError::Replayer {
                message: String::from_str("GTMTLReplayService could not be constructed"),
            },
        );
    }
    Ok(())
}

/// The verdict on loading the bundle at `path`: an error the load returned
/// (its description, trimmed) comes first, then the first error the
/// observer recorded, then a load that returned false.
pub fn load_verdict(load: Result<bool, String>, observed: Option<String>, path: &str) -> (r: Result<
    (),
    SessionError,
>)
    ensures
        match load {
            Err(desc) => r matches Err(SessionError::Replayer { message }) && message@ == truncated(
                desc@,
            ),
            Ok(loaded) => match observed {
                Some(m) => r matches Err(SessionError::Replayer { message }) && message@ == m@,
                None => if loaded {
                    r is Ok
                } else {
                    r matches Err(SessionError::LoadFailed { bundle }) && bundle@ == path@
                },
            },
        },
{
    match load {
        Err(desc) => Err(SessionError::Replayer { message: truncate(desc.as_str()) }),
        Ok(loaded) => match observed {
            Some(message) => Err(SessionError::Replayer { message }),
            None => if loaded {
                Ok(())
            } else {
                Err(SessionError::LoadFailed { bundle: String::from_str(path) })
            },
        },
    }
}

/// What the replayer handed its error observer.
pub enum Observed {
    /// Nothing (a nil error).
    Nil,
    /// An `NSError`, by its localized description.
    Error(String),
    /// Another object, by its description.
    Object(String),
    /// An object that gives no description.
    Opaque,
}

/// The message recorded for what the observer was handed: a description
/// is trimmed (see [`truncate`]).
pub fn observed_message(o: &Observed) -> (r: String)
    ensures
        r@ == match o {
            Observed::Nil => "(nil)"@,
            Observed::Error(d) => truncated(d@),
            Observed::Object(d) => truncated(d@),
            Observed::Opaque => "(no description)"@,
        },
{
    match o {
        Observed::Nil => String::from_str("(nil)"),
        Observed::Error(d) => truncate(d.as_str()),
        Observed::Object(d) => truncate(d.as_str()),
        Observed::Opaque => String::from_str("(no description)"),
    }
}

/// The first error recorded at or after `mark`.
pub open spec fn first_since(errors: Seq<Seq<char>>, mark: int) -> Option<Seq<char>> {
    if 0 <= mark < errors.len() {
        Some(errors[mark])
    } else {
        None
    }
}

/// The errors the replayer reported to the observer, in order.
pub struct ErrorLog {
    errors: Vec<String>,
}

impl ErrorLog {
    /// The errors recorded, in order.
    pub closed spec fn spec_errors(&self) -> Seq<Seq<char>> {
        Seq::new(self.errors@.len(), |i: int| self.errors@[i]@)
    }

    /// An empty log.
    pub fn new() -> (l: ErrorLog)
        ensures
            l.spec_errors() == Seq::<Seq<char>>::empty(),
    {
        let l = ErrorLog { errors: Vec::new() };
        assert(l.spec_errors() =~= Seq::<Seq<char>>::empty());
        l
    }

    /// Record one error.
    pub fn record(&mut self, message: String)
        ensures
            final(self).spec_errors() == old(self).spec_errors().push(message@),
    {
        let ghost m = message@;
        self.errors.push(message);
        assert(self.spec_errors() =~= old(self).spec_errors().push(m));
    }

    /// How many errors have been recorded: a mark for
    /// [`ErrorLog::first_error_since`].
    pub fn error_count(&self) -> (r: usize)
        ensures
            r == self.spec_errors().len(),
    {
        self.errors.len()
    }

    /// The first error recorded at or after `mark`.
    pub fn first_error_since(&self, mark: usize) -> (r: Option<String>)
        ensures
            match first_since(self.spec_errors(), mark as int) {
                Some(m) => r matches Some(s) && s@ == m,
                None => r is None,
            },
    {
        if mark < self.errors.len() {
            Some(String::from_str(self.errors[mark].as_str()))
        } else {
            None
        }
    }

    /// The first error recorded at all.
    pub fn first_error(&self) -> (r: Option<String>)
        ensures
            match first_since(self.spec_errors(), 0) {
                Some(m) => r matches Some(s) && s@ == m,
                None => r is None,
            },
    {
        self.first_error_since(0)
    }
}

/// An error recorded after a mark is what the log reports since that mark,
/// whatever was recorded before it and after it.
pub proof fn lemma_error_since_mark(before: Seq<Seq<char>>, m: Seq<char>, after: Seq<Seq<char>>)
    ensures
        first_since(before.push(m) + after, before.len() as int) == Some(m),
{
    assert((before.push(m) + after)[before.len() as int] == m);
}

/// The process-wide bootstrap gate: the replayer can be bootstrapped once
/// per process.
pub struct SessionGate {
    opened: bool,
}

impl SessionGate {
    /// Whether a session has been opened through this gate.
    pub closed spec fn spec_opened(&self) -> bool {
        self.opened
    }

    /// A gate no session has passed.
    pub fn new() -> (g: SessionGate)
        ensures
            !g.spec_opened(),
    {
        SessionGate { opened: false }
    }

    /// Take the process's single bootstrap: the first call succeeds, every
    /// later call fails with `AlreadyOpen`; it stays closed either way.
    pub fn claim(&mut self) -> (r: Result<(), SessionError>)
        ensures
            final(self).spec_opened(),
            old(self).spec_opened() ==> r matches Err(SessionError::AlreadyOpen),
            !old(self).spec_opened() ==> r is Ok,
    {
        if self.opened {
            return Err(SessionError::AlreadyOpen);
        }
        self.opened = true;
        Ok(())
    }
}

/// Whether the checks `open` makes before touching anything global pass:
/// the bundle's shape, a UTF-8 path, and the unlock variable.
pub open spec fn open_checks_pass(
    exists: bool,
    has_index: bool,
    has_metadata: bool,
    path_utf8: bool,
    unlock_ok: bool,
) -> bool {
    exists && has_index && has_metadata && path_utf8 && unlock_ok
}

/// The first step of opening a session: the bundle's shape, then its path's
/// encoding, then the unlock variable (`unlock`, as read from the
/// environment), and only when all three pass, the process's one-shot
/// claim. A refusal by any check leaves the claim untaken, so the caller
/// can mend the cause and open again.
pub fn open_step(
    gate: &mut SessionGate,
    display: &str,
    exists: bool,
    has_index: bool,
    has_metadata: bool,
    path_utf8: bool,
    unlock: &Result<(), UnlockEnvError>,
) -> (r: Result<(), SessionError>)
    ensures
        !exists ==> (r matches Err(SessionError::BadBundle(s)) && s@ == "no capture bundle at "@
            + display@),
        exists && !has_index ==> (r matches Err(SessionError::BadBundle(s)) && s@ == display@
            + " is not a capture bundle: it has no index file"@),
        exists && has_index && !has_metadata ==> (r matches Err(SessionError::BadBundle(s)) && s@
            == display@ + " is not a capture bundle: it has no metadata file"@),
        exists && has_index && has_metadata && !path_utf8 ==> (r matches Err(
            SessionError::BadBundle(s),
        ) && s@ == "bundle path "@ + display@ + " is not valid UTF-8"@),
        exists && has_index && has_metadata && path_utf8 ==> match unlock {
            Err(e) => r matches Err(SessionError::UnlockEnv(s)) && s@ == e.spec_message(),
            Ok(_) => true,
        },
        !open_checks_pass(exists, has_index, has_metadata, path_utf8, unlock is Ok) ==> (r is Err
            && final(gate).spec_opened() == old(gate).spec_opened()),
        open_checks_pass(exists, has_index, has_metadata, path_utf8, unlock is Ok) ==> (final(gate).spec_opened()
            && (old(gate).spec_opened() ==> r matches Err(SessionError::AlreadyOpen))
            && (!old(gate).spec_opened() ==> r is Ok)),
{
    match check_bundle_shape(display, exists, has_index, has_metadata) {
        Err(e) => return Err(e),
        Ok(()) => {},
    }
    if !path_utf8 {
        return Err(path_not_utf8(display));
    }
    match unlock {
        Err(e) => return Err(unlock_error(e)),
        Ok(()) => {},
    }
    gate.claim()
}

} // verus!
