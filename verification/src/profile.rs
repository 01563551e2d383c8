//! Sandbox profiles: validated allow-lists of operations.

use vstd::prelude::*;

verus! {

/// A sandbox profile, which specifies the set of operations that this process
/// is allowed to perform. Operations not in the list are implicitly denied.
///
/// If the process attempts to perform an operation in the list that this
/// platform can prohibit after the sandbox is entered via `activate()`, the
/// operation will either fail or the process will be immediately terminated.
/// Whether an operation can be prohibited on this platform can be checked with
/// `OperationSupport::support()`.
///
/// Because of platform limitations, patterns within one profile are not
/// permitted to overlap; the behavior is undefined if they do. For example,
/// a profile may not allow metadata reads of the subpath rooted at `/dev`
/// while allowing full reads of `/dev/null`; it must instead allow full reads
/// of `/dev` or be made more restrictive.
pub struct Profile {
    allowed_operations: Vec<Operation>,
}

/// An operation that this process is allowed to perform.
#[derive(Clone, Debug)]
pub enum Operation {
    /// All file-related reading operations may be performed on this file.
    FileReadAll(PathPattern),
    /// Metadata (for example, `stat` or `readlink`) of this file may be read.
    FileReadMetadata(PathPattern),
    /// Outbound network connections to the given address may be initiated.
    NetworkOutbound(AddressPattern),
    /// System information may be read (via `sysctl` on Unix).
    SystemInfoRead,
    /// Platform-specific operations.
    PlatformSpecific(crate::platform::Operation),
}

/// Describes a path or paths on the filesystem, as a raw byte string.
#[derive(Clone, Debug)]
pub enum PathPattern {
    /// One specific path.
    Literal(Vec<u8>),
    /// A directory and all of its contents, recursively.
    Subpath(Vec<u8>),
}

/// Describes a network address.
#[derive(Clone, Debug)]
pub enum AddressPattern {
    /// All network addresses.
    All,
    /// TCP connections on the given port.
    Tcp(u16),
    /// A local socket at the given path (for example, a Unix socket).
    LocalSocket(Vec<u8>),
}

/// How precisely an operation can be allowed on this platform.
#[derive(Copy, Clone, Debug, PartialEq, Eq, Structural)]
pub enum OperationSupportLevel {
    /// This operation is never allowed on this platform.
    NeverAllowed,
    /// This operation can be precisely allowed on this platform.
    CanBeAllowed,
    /// This operation cannot be allowed precisely on this platform, but
    /// another set of operations allows it to be allowed on a more
    /// coarse-grained level. For example, on Linux, it is not possible to
    /// allow access to specific ports, but it is possible to allow network
    /// access entirely.
    CannotBeAllowedPrecisely,
    /// This operation is always allowed on this platform.
    AlwaysAllowed,
}

/// Allows operations to be queried to determine how precisely they can be
/// allowed on this platform.
///
/// `support` must be total (defined for every operation) and deterministic
/// for a fixed platform: each implementation exposes its answer as the spec
/// function `support_spec` and promises to return exactly that answer.
pub trait OperationSupport {
    /// The support level this implementation assigns to `self`, as a
    /// mathematical function of the operation.
    spec fn support_spec(&self) -> OperationSupportLevel;

    /// Returns an `OperationSupportLevel` describing how well this operation
    /// can be allowed on this platform.
    fn support(&self) -> (level: OperationSupportLevel)
        ensures
            level == self.support_spec(),
    ;
}

/// Allows a sandbox to be activated.
///
/// Activation must happen inside the process to be confined, before any
/// operation outside the profile is attempted, and it is irreversible: once
/// active, the restriction set can only shrink for the remainder of the
/// process's life, including for any processes it subsequently creates.
/// A failed activation voids the isolation guarantee and must be treated as
/// fatal by the caller.
pub trait Activate {
    /// Enters the sandbox, activating its restrictions forevermore for this
    /// process and subprocesses. Be sure to check the return code!
    fn activate(&self) -> Result<(), ()>;
}

/// An operation may be listed in a profile exactly when the platform can
/// either block it entirely or grant it precisely.
pub open spec fn level_acceptable(level: OperationSupportLevel) -> bool {
    level == OperationSupportLevel::NeverAllowed || level == OperationSupportLevel::CanBeAllowed
}

/// Whether a single operation may be listed in a profile on this platform.
pub open spec fn operation_acceptable(operation: Operation) -> bool {
    level_acceptable(operation.support_spec())
}

/// Whether every operation in the list may be listed in a profile: the
/// validation gate of `Profile::new`.
pub open spec fn all_operations_acceptable(operations: Seq<Operation>) -> bool {
    forall|i: int| 0 <= i < operations.len() ==> operation_acceptable(operations[i])
}

impl Profile {
    /// The operations this profile allows, in the caller's order.
    pub closed spec fn ops(&self) -> Seq<Operation> {
        self.allowed_operations@
    }

    /// Every operation a profile stores passed the validation gate: a
    /// profile is immutable once constructed, so this holds for its entire
    /// lifetime.
    pub open spec fn validated(&self) -> bool {
        all_operations_acceptable(self.ops())
    }

    /// Creates a new profile with the given set of allowed operations.
    ///
    /// If the operations cannot be allowed precisely on this platform, this
    /// returns an error: construction fails if any operation's support level
    /// is `CannotBeAllowedPrecisely` (granting it would over-grant) or
    /// `AlwaysAllowed` (listing it would be misleading). The caller can then
    /// inspect the operations via `OperationSupport::support()` to see which
    /// ones cannot be allowed and modify the set as necessary. This is
    /// deliberately strict, to reduce the probability of applications
    /// accidentally allowing operations due to platform limitations.
    pub fn new(allowed_operations: Vec<Operation>) -> (result: Result<Profile, ()>)
        ensures
            result is Ok <==> all_operations_acceptable(allowed_operations@),
            result matches Ok(profile) ==> profile.ops() == allowed_operations@
                && profile.validated(),
    {
        let n = allowed_operations.len();
        let mut i: usize = 0;
        while i < n
            invariant
                i <= n,
                n == allowed_operations.len(),
                forall|j: int| 0 <= j < i ==> operation_acceptable(allowed_operations@[j]),
            decreases n - i,
        {
            let level = allowed_operations[i].support();
            match level {
                OperationSupportLevel::NeverAllowed | OperationSupportLevel::CanBeAllowed => {
                    i = i + 1;
                }
                OperationSupportLevel::CannotBeAllowedPrecisely
                | OperationSupportLevel::AlwaysAllowed => {
                    assert(!operation_acceptable(allowed_operations@[i as int]));
                    return Err(());
                }
            }
        }
        Ok(Profile { allowed_operations })
    }

    /// Returns the list of allowed operations.
    pub fn allowed_operations(&self) -> (operations: &[Operation])
        ensures
            operations@ == self.ops(),
    {
        self.allowed_operations.as_slice()
    }
}

/// Validation totality: a profile holding a single operation passes the
/// validation gate exactly when that operation's support level is
/// `NeverAllowed` or `CanBeAllowed`. Together with the contract of
/// `Profile::new`, construction from `[operation]` succeeds if and only if
/// the operation's level is acceptable.
pub proof fn lemma_validation_totality(operation: Operation)
    ensures
        all_operations_acceptable(seq![operation]) <==> level_acceptable(
            operation.support_spec(),
        ),
{
    assert(seq![operation][0] == operation);
    if level_acceptable(operation.support_spec()) {
        assert forall|i: int| 0 <= i < seq![operation].len() implies operation_acceptable(
            seq![operation][i],
        ) by {
            assert(seq![operation][i] == operation);
        }
    }
}

/// Validation is all-or-nothing: a single unacceptable operation anywhere in
/// the list makes the whole list fail the validation gate, so `Profile::new`
/// rejects it entirely and no partial profile exists.
pub proof fn lemma_validation_all_or_nothing(operations: Seq<Operation>, i: int)
    requires
        0 <= i < operations.len(),
        !operation_acceptable(operations[i]),
    ensures
        !all_operations_acceptable(operations),
{
}

} // verus!
