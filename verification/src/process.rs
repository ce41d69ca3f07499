//! The lifecycle of the spawned browser process.
//!
//! A [`Child`] remembers the OS process id and, once the process has been
//! reaped, its cached exit status.  Reaping is idempotent, and killing is
//! refused after reaping: the OS may recycle a reaped process id at any
//! moment, so a signal is only ever sent while the process is still ours to
//! wait for.

use vstd::prelude::*;

verus! {

/// How a reaped process ended.
#[derive(Clone, Copy, PartialEq, Eq, Structural, Debug)]
pub enum ChildExit {
    /// Exited normally with this code.
    Exited(i32),
    /// Killed by this signal.
    Signaled(i32),
    /// Any other reported state change.
    Stopped,
}

/// Why a kill was refused or failed.
#[derive(Clone, Copy, PartialEq, Eq, Structural, Debug)]
pub enum KillError {
    /// The process was already reaped; its id may belong to someone else
    /// by now, so no signal was sent.
    AlreadyReaped,
    /// The OS refused the signal with this errno.
    Os(i32),
}

/// Relies on nix::sys::signal::kill: sends SIGKILL to the process with this
/// id, succeeding or reporting the OS errno.
#[verifier::external_body]
fn send_sigkill(pid: u32) -> (r: Result<(), i32>) {
    match nix::sys::signal::kill(
        nix::unistd::Pid::from_raw(pid as i32),
        nix::sys::signal::Signal::SIGKILL,
    ) {
        Ok(()) => Ok(()),
        Err(e) => Err(e as i32),
    }
}

/// Relies on nix::sys::wait::waitpid: blocks until the process with this id
/// changes state, reporting how it ended or the OS errno.
#[verifier::external_body]
fn wait_for_child(pid: u32) -> (r: Result<ChildExit, i32>) {
    match nix::sys::wait::waitpid(Some(nix::unistd::Pid::from_raw(pid as i32)), None) {
        Ok(nix::sys::wait::WaitStatus::Exited(_, code)) => Ok(ChildExit::Exited(code)),
        Ok(nix::sys::wait::WaitStatus::Signaled(_, sig, _)) => Ok(ChildExit::Signaled(sig as i32)),
        Ok(_) => Ok(ChildExit::Stopped),
        Err(e) => Err(e as i32),
    }
}

/// A handle to the spawned child process: its id, and its exit status once
/// it has been reaped.
pub struct Child {
    /// The OS process id.
    pub pid: u32,
    /// The cached exit status; `Some` exactly once the process was reaped.
    pub status: Option<ChildExit>,
}

impl Child {
    /// Adopt a freshly spawned process: not yet reaped.
    pub fn new(pid: u32) -> (r: Child)
        ensures
            r.pid == pid,
            r.status is None,
    {
        Child { pid, status: None }
    }

    /// The OS process id.
    pub fn id(&self) -> (r: u32)
        ensures
            r == self.pid,
    {
        self.pid
    }

    /// Send SIGKILL — unless the process was already reaped, in which case
    /// its id may have been recycled for an unrelated process, and killing
    /// is refused instead of signalling blindly.  The handle itself never
    /// changes: only a wait records an exit.
    pub fn kill(&mut self) -> (r: Result<(), KillError>)
        ensures
            *final(self) == *old(self),
            (r matches Err(e) && e == KillError::AlreadyReaped) <==> old(self).status is Some,
    {
        if self.status.is_some() {
            Err(KillError::AlreadyReaped)
        } else {
            match send_sigkill(self.pid) {
                Ok(_) => Ok(()),
                Err(e) => Err(KillError::Os(e)),
            }
        }
    }

    /// Reap the process, or return the cached status if it was reaped
    /// before: waiting twice reports the same exit and asks the OS nothing
    /// further.  A failed wait caches nothing.
    pub fn wait(&mut self) -> (r: Result<ChildExit, i32>)
        ensures
            final(self).pid == old(self).pid,
            old(self).status matches Some(s) ==> r == Ok::<ChildExit, i32>(s) && *final(self)
                == *old(self),
            old(self).status is None ==> match r {
                Ok(s) => final(self).status == Some(s),
                Err(_) => final(self).status is None,
            },
    {
        match self.status {
            Some(status) => Ok(status),
            None => {
                match wait_for_child(self.pid) {
                    Ok(status) => {
                        self.status = Some(status);
                        Ok(status)
                    },
                    Err(e) => Err(e),
                }
            },
        }
    }
}

} // verus!
