//! Command descriptions for sandboxed child processes, and their encoding
//! into the argument vector and `KEY=VALUE` environment entries handed to
//! program replacement.

use vstd::prelude::*;
use crate::utf8::{is_utf8, is_valid_utf8};

verus! {

/// A description of the program a sandboxed child process is to run:
/// a program path, an ordered argument list, and ordered environment
/// entries as key/value byte-string pairs.
pub struct Command {
    /// The filesystem path of the program, used both as the program to
    /// execute and as argument zero.
    pub program_path: Vec<u8>,
    /// The arguments that follow the program path.
    pub args: Vec<Vec<u8>>,
    /// The environment of the child, as key/value pairs.
    pub env: Vec<(Vec<u8>, Vec<u8>)>,
}

/// Whether a byte string holds no NUL byte, so it can be handed on as a
/// NUL-terminated string.
pub open spec fn nul_free(s: Seq<u8>) -> bool {
    forall|i: int| 0 <= i < s.len() ==> s[i] != 0
}

/// Returns whether the byte string holds no NUL byte.
pub fn is_nul_free(bytes: &Vec<u8>) -> (r: bool)
    ensures
        r == nul_free(bytes@),
{
    let n = bytes.len();
    let mut i: usize = 0;
    while i < n
        invariant
            i <= n,
            n == bytes@.len(),
            forall|j: int| 0 <= j < i ==> bytes@[j] != 0,
        decreases n - i,
    {
        if bytes[i] == 0 {
            assert(bytes@[i as int] == 0);
            return false;
        }
        i = i + 1;
    }
    true
}

/// Returns a copy of the byte string.
fn copy_bytes(bytes: &Vec<u8>) -> (r: Vec<u8>)
    ensures
        r@ == bytes@,
{
    let n = bytes.len();
    let mut r: Vec<u8> = Vec::new();
    let mut i: usize = 0;
    while i < n
        invariant
            i <= n,
            n == bytes@.len(),
            r@ == bytes@.take(i as int),
        decreases n - i,
    {
        r.push(bytes[i]);
        proof {
            assert(bytes@.take(i as int).push(bytes@[i as int]) =~= bytes@.take(i as int + 1));
        }
        i = i + 1;
    }
    proof {
        assert(bytes@.take(n as int) =~= bytes@);
    }
    r
}

/// Whether an environment key/value pair can be encoded as an entry of the
/// child's environment: both halves decode as text and neither holds a NUL
/// byte.
pub open spec fn env_pair_encodable(key: Seq<u8>, value: Seq<u8>) -> bool {
    is_utf8(key) && is_utf8(value) && nul_free(key) && nul_free(value)
}

/// The bytes of the environment entry for a pair: the key, `=`, the value.
pub open spec fn env_entry_bytes(key: Seq<u8>, value: Seq<u8>) -> Seq<u8> {
    key + seq![61u8] + value
}

/// Builds the `KEY=VALUE` environment entry for one pair, or fails if the
/// pair cannot be encoded as text.
pub fn env_entry(key: &Vec<u8>, value: &Vec<u8>) -> (entry: Result<Vec<u8>, ()>)
    ensures
        entry is Ok <==> env_pair_encodable(key@, value@),
        entry matches Ok(e) ==> e@ == env_entry_bytes(key@, value@),
{
    if !is_valid_utf8(key) || !is_nul_free(key) || !is_valid_utf8(value) || !is_nul_free(value) {
        return Err(());
    }
    let mut e = copy_bytes(key);
    e.push(61);
    proof {
        assert(e@ =~= key@ + seq![61u8] + value@.take(0));
    }
    let n = value.len();
    let mut i: usize = 0;
    while i < n
        invariant
            i <= n,
            n == value@.len(),
            e@ == key@ + seq![61u8] + value@.take(i as int),
        decreases n - i,
    {
        e.push(value[i]);
        proof {
            assert((key@ + seq![61u8] + value@.take(i as int)).push(value@[i as int]) =~= key@
                + seq![61u8] + value@.take(i as int + 1));
        }
        i = i + 1;
    }
    proof {
        assert(value@.take(n as int) =~= value@);
    }
    Ok(e)
}

/// The fully encoded image of a command, ready for program replacement: the
/// argument vector (program path first, then the arguments) and the encoded
/// `KEY=VALUE` environment entries, every string NUL-free. The terminating
/// sentinel of each vector is appended by whatever makes the replacement
/// call.
pub struct ExecImage {
    /// The argument vector, program path first.
    pub argv: Vec<Vec<u8>>,
    /// The encoded environment entries, in the command's order.
    pub env: Vec<Vec<u8>>,
}

/// Whether a command can be encoded for program replacement: its path and
/// every argument are NUL-free, and every environment pair is encodable as
/// text.
pub open spec fn command_encodable(c: Command) -> bool {
    &&& nul_free(c.program_path@)
    &&& forall|i: int| 0 <= i < c.args@.len() ==> nul_free(c.args@[i]@)
    &&& forall|i: int| 0 <= i < c.env@.len() ==> env_pair_encodable(c.env@[i].0@, c.env@[i].1@)
}

/// Encodes a command into the image program replacement consumes, or fails
/// — before any process is created — if the command cannot be encoded.
pub fn exec_image(command: &Command) -> (image: Result<ExecImage, ()>)
    ensures
        image is Ok <==> command_encodable(*command),
        image matches Ok(img) ==> ({
            &&& img.argv@.len() == 1 + command.args@.len()
            &&& img.argv@[0]@ == command.program_path@
            &&& forall|i: int|
                0 <= i < command.args@.len() ==> img.argv@[i + 1]@ == command.args@[i]@
            &&& img.env@.len() == command.env@.len()
            &&& forall|i: int|
                0 <= i < command.env@.len() ==> img.env@[i]@ == env_entry_bytes(
                    command.env@[i].0@,
                    command.env@[i].1@,
                )
        }),
{
    if !is_nul_free(&command.program_path) {
        return Err(());
    }
    let mut argv: Vec<Vec<u8>> = Vec::new();
    argv.push(copy_bytes(&command.program_path));

    let nargs = command.args.len();
    let mut i: usize = 0;
    while i < nargs
        invariant
            i <= nargs,
            nargs == command.args@.len(),
            nul_free(command.program_path@),
            argv@.len() == i + 1,
            argv@[0]@ == command.program_path@,
            forall|j: int| 0 <= j < i ==> argv@[j + 1]@ == command.args@[j]@,
            forall|j: int| 0 <= j < i ==> nul_free(command.args@[j]@),
        decreases nargs - i,
    {
        let arg = &command.args[i];
        if !is_nul_free(arg) {
            assert(!nul_free(command.args@[i as int]@));
            return Err(());
        }
        argv.push(copy_bytes(arg));
        i = i + 1;
    }

    let nenv = command.env.len();
    let mut env: Vec<Vec<u8>> = Vec::new();
    let mut k: usize = 0;
    while k < nenv
        invariant
            k <= nenv,
            nenv == command.env@.len(),
            env@.len() == k,
            forall|j: int|
                0 <= j < k ==> env@[j]@ == env_entry_bytes(
                    command.env@[j].0@,
                    command.env@[j].1@,
                ),
            forall|j: int| 0 <= j < k ==> env_pair_encodable(command.env@[j].0@, command.env@[j].1@),
        decreases nenv - k,
    {
        let pair = &command.env[k];
        match env_entry(&pair.0, &pair.1) {
            Ok(e) => {
                env.push(e);
                k = k + 1;
            },
            Err(()) => {
                assert(!env_pair_encodable(command.env@[k as int].0@, command.env@[k as int].1@));
                return Err(());
            },
        }
    }
    Ok(ExecImage { argv, env })
}

} // verus!
