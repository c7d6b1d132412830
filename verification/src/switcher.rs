//! The switch protocol: enter the target namespace, run the caller's logic,
//! exit back into the original namespace. The `setns` calls themselves are
//! made outside the library; what is verified here is every decision the
//! protocol takes — when handles are required, how each phase's outcome is
//! classified, and the precedence between an exit failure and the logic's
//! result.

use vstd::prelude::*;

use crate::identity::Namespace;
use crate::identity::NsError;

verus! {

/// How a switch can fail. `Enter` and `Exit` carry the target identity and
/// the OS error code of the failed `setns` call; `Namespace` wraps an
/// identity-resolution failure met while constructing a `Switcher`; `Other`
/// carries a caller-supplied logic failure.
#[derive(Debug)]
pub enum Error {
    Enter(Namespace, i32),
    Exit(Namespace, i32),
    Namespace(NsError),
    Other(String),
}

impl Error {
    /// Wrap a caller-supplied failure message.
    pub fn other(err: String) -> (r: Error)
        ensures
            r == (Error::Other(err)),
    {
        Error::Other(err)
    }
}

/// One prepared switch towards `namespace`, the target identity. The two
/// handle fields hold the file descriptors of the caller's own and of the
/// target's namespace file; they are either both present or both absent,
/// and are meant to be absent exactly when the caller already is in the
/// target namespace, so that no switching syscall is ever made then.
#[derive(Debug)]
pub struct Switcher {
    pub namespace: Namespace,
    pub src: Option<i32>,
    pub dst: Option<i32>,
}

impl Switcher {
    /// Both handles present, or neither.
    pub open spec fn wf(self) -> bool {
        (self.src is Some) <==> (self.dst is Some)
    }

    /// Whether this switch holds namespace handles at all.
    pub open spec fn spec_has_handles(self) -> bool {
        self.src is Some
    }

    /// Whether a switch between the two resolved identities needs handles
    /// at all: none are needed exactly when the caller's own identity
    /// already equals the target's.
    pub fn needs_handles(self_ns: &Namespace, target_ns: &Namespace) -> (r: bool)
        ensures
            r == (self_ns != target_ns),
    {
        self_ns != target_ns
    }

    /// The no-switch construction: the caller already is in the target
    /// namespace, so no handles are held and no syscall will be made.
    pub fn no_switch(target_ns: Namespace) -> (s: Switcher)
        ensures
            s.wf(),
            !s.spec_has_handles(),
            s.namespace == target_ns,
    {
        Switcher { namespace: target_ns, src: None, dst: None }
    }

    /// The switching construction: `src` is an open handle to the caller's
    /// own namespace file, `dst` one to the target's.
    pub fn with_handles(target_ns: Namespace, src: i32, dst: i32) -> (s: Switcher)
        ensures
            s.wf(),
            s.spec_has_handles(),
            s.namespace == target_ns,
            s.src == Some(src),
            s.dst == Some(dst),
    {
        Switcher { namespace: target_ns, src: Some(src), dst: Some(dst) }
    }

    /// Whether this switch holds handles.
    pub fn has_handles(&self) -> (r: bool)
        ensures
            r == self.spec_has_handles(),
    {
        self.src.is_some()
    }

    /// The meaning of the enter phase: `sys` is the outcome of the `setns`
    /// call towards the target namespace, or `None` when no handle is held
    /// and no call was to be made. A failed call becomes an `Enter` error
    /// tagged with the target identity.
    pub open spec fn spec_enter_outcome(self, sys: Option<Result<(), i32>>) -> Result<(), Error> {
        match sys {
            None => Ok(()),
            Some(Ok(())) => Ok(()),
            Some(Err(code)) => Err(Error::Enter(self.namespace, code)),
        }
    }

    /// Classify the outcome of the enter phase.
    pub fn enter_outcome(&self, sys: Option<Result<(), i32>>) -> (r: Result<(), Error>)
        requires
            (sys is Some) == self.spec_has_handles(),
        ensures
            r == self.spec_enter_outcome(sys),
    {
        match sys {
            None => Ok(()),
            Some(Ok(())) => Ok(()),
            Some(Err(code)) => Err(Error::Enter(self.namespace, code)),
        }
    }

    /// The meaning of the exit phase: as for entering, but a failed call
    /// becomes an `Exit` error.
    pub open spec fn spec_exit_outcome(self, sys: Option<Result<(), i32>>) -> Result<(), Error> {
        match sys {
            None => Ok(()),
            Some(Ok(())) => Ok(()),
            Some(Err(code)) => Err(Error::Exit(self.namespace, code)),
        }
    }

    /// Classify the outcome of the exit phase.
    pub fn exit_outcome(&self, sys: Option<Result<(), i32>>) -> (r: Result<(), Error>)
        requires
            (sys is Some) == self.spec_has_handles(),
        ensures
            r == self.spec_exit_outcome(sys),
    {
        match sys {
            None => Ok(()),
            Some(Ok(())) => Ok(()),
            Some(Err(code)) => Err(Error::Exit(self.namespace, code)),
        }
    }

    /// The precedence between the logic's result and the exit phase: an
    /// exit failure supersedes and discards the logic's outcome, even a
    /// successful one; a clean exit returns the logic's outcome unchanged.
    pub open spec fn spec_conclude<T>(logic: Result<T, Error>, exit: Result<(), Error>) -> Result<
        T,
        Error,
    > {
        match exit {
            Err(e) => Err(e),
            Ok(()) => logic,
        }
    }

    /// Combine the logic phase's result with the exit phase's.
    pub fn conclude<T>(logic: Result<T, Error>, exit: Result<(), Error>) -> (r: Result<T, Error>)
        ensures
            r == Self::spec_conclude(logic, exit),
    {
        match exit {
            Err(e) => Err(e),
            Ok(()) => logic,
        }
    }

    /// The outcome of one whole run of the protocol, from the outcomes of
    /// its phases. An enter failure ends the run at once: the `logic` and
    /// `exit_sys` arguments are ignored there, which is exactly the rule
    /// that the logic is never invoked and the exit never attempted after
    /// a failed enter.
    pub open spec fn spec_protocol<T>(
        self,
        enter_sys: Option<Result<(), i32>>,
        logic: Result<T, Error>,
        exit_sys: Option<Result<(), i32>>,
    ) -> Result<T, Error> {
        match self.spec_enter_outcome(enter_sys) {
            Err(e) => Err(e),
            Ok(()) => Self::spec_conclude(logic, self.spec_exit_outcome(exit_sys)),
        }
    }
}

/// With no handles held, the protocol makes no syscall and returns the
/// logic's result unmodified.
pub proof fn lemma_no_switch_protocol<T>(s: Switcher, logic: Result<T, Error>)
    requires
        !s.spec_has_handles(),
    ensures
        s.spec_protocol(None, logic, None) == logic,
{
}

/// If the enter phase fails, the run's outcome is that `Enter` error,
/// tagged with the target identity, whatever the logic would have returned
/// and whatever the exit phase would have done: the logic never runs and
/// the exit is never attempted.
pub proof fn lemma_enter_failure_short_circuit<T>(
    s: Switcher,
    code: i32,
    logic: Result<T, Error>,
    exit_sys: Option<Result<(), i32>>,
)
    ensures
        s.spec_protocol(Some(Err(code)), logic, exit_sys) == Err::<T, Error>(
            Error::Enter(s.namespace, code),
        ),
{
}

/// With a clean enter and a clean exit, the run's outcome is the logic's
/// result, unchanged.
pub proof fn lemma_clean_run<T>(s: Switcher, logic: Result<T, Error>)
    ensures
        s.spec_protocol(Some(Ok(())), logic, Some(Ok(()))) == logic,
{
}

/// If the logic succeeds but the exit phase fails, the run's outcome is the
/// `Exit` error: the logic's success value is discarded.
pub proof fn lemma_exit_failure_precedence<T>(s: Switcher, value: T, code: i32)
    ensures
        s.spec_protocol(Some(Ok(())), Ok(value), Some(Err(code))) == Err::<T, Error>(
            Error::Exit(s.namespace, code),
        ),
{
}

} // verus!
