//! The startup-time handle buffer for pipe-mode launches on platforms that
//! pass handles through process startup data.
//!
//! The child finds its five inherited handles in one packed buffer laid out
//! as: a 32-bit handle count, one flag byte per handle, then one 32-bit
//! handle value per handle, everything little-endian.  The two channel ends
//! sit in the fourth and fifth slot; the first three point the child's
//! standard streams at the null device.

use vstd::prelude::*;

verus! {

/// The flag byte marking a slot as an open file-like handle.
pub const PIPE_SLOT_FLAGS: u8 = 0x41;

/// The little-endian bytes of one 32-bit value.
pub open spec fn u32_le_bytes(x: u32) -> Seq<u8> {
    seq![
        (x & 0xff) as u8,
        ((x >> 8) & 0xff) as u8,
        ((x >> 16) & 0xff) as u8,
        ((x >> 24) & 0xff) as u8,
    ]
}

/// The five startup handles of a pipe-mode child, with their flag bytes.
pub struct Pipes {
    pub fd_count: u32,
    pub crt_flag_stdin: u8,
    pub crt_flag_stdout: u8,
    pub crt_flag_stderr: u8,
    pub crt_flag_childin: u8,
    pub crt_flag_childout: u8,
    pub stdin: u32,
    pub stdout: u32,
    pub stderr: u32,
    pub childin: u32,
    pub childout: u32,
}

/// The packed wire layout of the buffer: count, flags, handles.
pub open spec fn spec_pipes_bytes(p: Pipes) -> Seq<u8> {
    u32_le_bytes(p.fd_count) + seq![
        p.crt_flag_stdin,
        p.crt_flag_stdout,
        p.crt_flag_stderr,
        p.crt_flag_childin,
        p.crt_flag_childout,
    ] + u32_le_bytes(p.stdin) + u32_le_bytes(p.stdout) + u32_le_bytes(p.stderr) + u32_le_bytes(
        p.childin,
    ) + u32_le_bytes(p.childout)
}

fn push_u32_le(out: &mut Vec<u8>, x: u32)
    ensures
        final(out)@ == old(out)@ + u32_le_bytes(x),
{
    out.push((x & 0xff) as u8);
    out.push(((x >> 8) & 0xff) as u8);
    out.push(((x >> 16) & 0xff) as u8);
    out.push(((x >> 24) & 0xff) as u8);
    proof {
        assert(out@ =~= old(out)@ + u32_le_bytes(x));
    }
}

impl Pipes {
    /// An all-zero buffer, to be filled slot by slot.
    pub fn new() -> (r: Pipes)
        ensures
            r == (Pipes {
                fd_count: 0u32,
                crt_flag_stdin: 0u8,
                crt_flag_stdout: 0u8,
                crt_flag_stderr: 0u8,
                crt_flag_childin: 0u8,
                crt_flag_childout: 0u8,
                stdin: 0u32,
                stdout: 0u32,
                stderr: 0u32,
                childin: 0u32,
                childout: 0u32,
            }),
    {
        Pipes {
            fd_count: 0,
            crt_flag_stdin: 0,
            crt_flag_stdout: 0,
            crt_flag_stderr: 0,
            crt_flag_childin: 0,
            crt_flag_childout: 0,
            stdin: 0,
            stdout: 0,
            stderr: 0,
            childin: 0,
            childout: 0,
        }
    }

    /// Serialize the buffer into its packed little-endian layout.
    pub fn to_bytes(&self) -> (r: Vec<u8>)
        ensures
            r@ == spec_pipes_bytes(*self),
            r@.len() == 29,
    {
        let mut out: Vec<u8> = Vec::new();
        push_u32_le(&mut out, self.fd_count);
        out.push(self.crt_flag_stdin);
        out.push(self.crt_flag_stdout);
        out.push(self.crt_flag_stderr);
        out.push(self.crt_flag_childin);
        out.push(self.crt_flag_childout);
        push_u32_le(&mut out, self.stdin);
        push_u32_le(&mut out, self.stdout);
        push_u32_le(&mut out, self.stderr);
        push_u32_le(&mut out, self.childin);
        push_u32_le(&mut out, self.childout);
        proof {
            assert(out@ =~= spec_pipes_bytes(*self));
        }
        out
    }
}

/// Fill the buffer for one pipe-mode launch: five open-file slots, the
/// child's standard streams on the null-device handles, and the two channel
/// ends in the child slots.
pub fn pipe_factory(
    child_input: u32,
    child_output: u32,
    null_stdin: u32,
    null_stdout: u32,
    null_stderr: u32,
) -> (r: Pipes)
    ensures
        r == (Pipes {
            fd_count: 5u32,
            crt_flag_stdin: PIPE_SLOT_FLAGS,
            crt_flag_stdout: PIPE_SLOT_FLAGS,
            crt_flag_stderr: PIPE_SLOT_FLAGS,
            crt_flag_childin: PIPE_SLOT_FLAGS,
            crt_flag_childout: PIPE_SLOT_FLAGS,
            stdin: null_stdin,
            stdout: null_stdout,
            stderr: null_stderr,
            childin: child_input,
            childout: child_output,
        }),
{
    let mut pipes = Pipes::new();
    pipes.fd_count = 5;
    pipes.crt_flag_stdin = PIPE_SLOT_FLAGS;
    pipes.crt_flag_stdout = PIPE_SLOT_FLAGS;
    pipes.crt_flag_stderr = PIPE_SLOT_FLAGS;
    pipes.crt_flag_childin = PIPE_SLOT_FLAGS;
    pipes.crt_flag_childout = PIPE_SLOT_FLAGS;
    pipes.stdin = null_stdin;
    pipes.stdout = null_stdout;
    pipes.stderr = null_stderr;
    pipes.childin = child_input;
    pipes.childout = child_output;
    pipes
}

} // verus!
