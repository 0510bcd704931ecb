//! The system calls the kernel serves, by the number an application puts in
//! register `a7` (`x17`): the RISC-V Linux numbering.

use vstd::prelude::*;

verus! {

/// `write(fd, buf, len)`: the application writes `len` bytes at `buf` to `fd`.
pub const SYSCALL_WRITE: usize = 64;

/// The file descriptor of the console.
pub const FD_STDOUT: usize = 1;

/// `exit(code)`: the application ends with `code`.
pub const SYSCALL_EXIT: usize = 93;

/// `yield()`: the application gives up the processor.
pub const SYSCALL_YIELD: usize = 124;

/// A system call, read from its number and arguments.
#[derive(Debug, Copy, Clone, PartialEq, Eq, Structural)]
pub enum SyscallRequest {
    /// Print the `len` bytes at address `buf` on the console.
    WriteStdout { buf: usize, len: usize },
    /// A write to a file descriptor other than the console.
    UnsupportedFd { fd: usize },
    Exit { exit_code: isize },
    Yield,
    Unsupported { id: usize },
}

/// The system call with number `id` and arguments `args`: a write takes the
/// file descriptor, the buffer's address and its length; the exit code is the
/// first argument, read as a signed number.
pub fn syscall(id: usize, args: (usize, usize, usize)) -> (r: SyscallRequest)
    ensures
        id == SYSCALL_WRITE && args.0 == FD_STDOUT ==> r == (SyscallRequest::WriteStdout {
            buf: args.1,
            len: args.2,
        }),
        id == SYSCALL_WRITE && args.0 != FD_STDOUT ==> r == (SyscallRequest::UnsupportedFd {
            fd: args.0,
        }),
        id == SYSCALL_EXIT ==> r == (SyscallRequest::Exit { exit_code: args.0 as isize }),
        id == SYSCALL_YIELD ==> r == SyscallRequest::Yield,
        id != SYSCALL_WRITE && id != SYSCALL_EXIT && id != SYSCALL_YIELD ==> r == (SyscallRequest::Unsupported { id }),
{
    if id == SYSCALL_WRITE {
        if args.0 == FD_STDOUT {
            SyscallRequest::WriteStdout { buf: args.1, len: args.2 }
        } else {
            SyscallRequest::UnsupportedFd { fd: args.0 }
        }
    } else if id == SYSCALL_EXIT {
        SyscallRequest::Exit { exit_code: args.0 as isize }
    } else if id == SYSCALL_YIELD {
        SyscallRequest::Yield
    } else {
        SyscallRequest::Unsupported { id }
    }
}

} // verus!
