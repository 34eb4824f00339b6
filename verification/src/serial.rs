//! Sockets and pipes that serial devices are connected through, and when they may
//! be trusted or removed.

use vstd::prelude::*;

use crate::refusal::{refusal_of, refuse, refuse_naming, Refusal};
use crate::text::{chars_of, has_prefix, has_suffix, push_text, starts_with, string_of};

verus! {

/// The kind of a failure of input or output.
#[derive(Clone, Copy, Debug, PartialEq, Eq, Structural)]
pub enum FailureKind {
    InvalidInput,
    InvalidData,
    PermissionDenied,
    TimedOut,
    UnexpectedEof,
    Unsupported,
    /// Any other kind, as the host reported it.
    Other,
}

/// A failure of input or output.
#[derive(Debug)]
pub struct IoFailure {
    pub kind: FailureKind,
    pub message: String,
}

impl View for IoFailure {
    type V = (FailureKind, Seq<char>);

    open spec fn view(&self) -> (FailureKind, Seq<char>) {
        (self.kind, self.message@)
    }
}

/// What a fallible step answered, as mathematical values.
pub open spec fn failure_of<T>(r: Result<T, IoFailure>) -> Option<(FailureKind, Seq<char>)> {
    match r {
        Ok(_) => None,
        Err(e) => Some(e@),
    }
}

fn fail(kind: FailureKind, message: &str) -> (r: IoFailure)
    ensures
        r@ == (kind, message@),
{
    IoFailure { kind, message: message.to_owned() }
}

/// What a directory entry is, without following links.
#[derive(Clone, Copy, Debug, PartialEq, Eq, Structural)]
pub enum EntryKind {
    Directory,
    Symlink,
    Socket,
    Fifo,
    Other,
}

/// What is known of a directory entry.
#[derive(Clone, Copy, Debug, PartialEq, Eq, Structural)]
pub struct EntryFacts {
    pub kind: EntryKind,
    pub uid: u32,
    pub mode: u32,
    pub device: u64,
    pub inode: u64,
}

/// The permission bits of an entry.
pub open spec fn permissions(entry: EntryFacts) -> u32 {
    entry.mode & 0xfff
}

/// Two entries are the same file.
pub open spec fn same_entry(a: EntryFacts, b: EntryFacts) -> bool {
    a.device == b.device && a.inode == b.inode
}

/// The directory can only be reached by its owner.
pub open spec fn private_directory(parent: EntryFacts, user: u32) -> bool {
    parent.kind == EntryKind::Directory && parent.uid == user && permissions(parent) == 0x1c0
}

/// Checks the directory of a control endpoint.
pub fn check_control_parent(parent: Option<&EntryFacts>, user: u32) -> (r: Result<(), IoFailure>)
    ensures
        failure_of(r) == (match parent {
            None => Some(
                (FailureKind::InvalidInput, "control endpoint has no parent directory"@),
            ),
            Some(parent) => if private_directory(*parent, user) {
                None
            } else {
                Some(
                    (
                        FailureKind::PermissionDenied,
                        "control endpoint parent must be a non-symlink directory owned by OpenVMM with mode 0700"@,
                    ),
                )
            },
        }),
{
    match parent {
        None => Err(fail(FailureKind::InvalidInput, "control endpoint has no parent directory")),
        Some(parent) => {
            if parent.kind != EntryKind::Directory || parent.uid != user || parent.mode & 0xfff
                != 0x1c0 {
                return Err(
                    fail(
                        FailureKind::PermissionDenied,
                        "control endpoint parent must be a non-symlink directory owned by OpenVMM with mode 0700",
                    ),
                );
            }
            Ok(())
        },
    }
}

/// The socket is still the one that was bound, and only its owner can use it.
pub open spec fn private_socket(socket: EntryFacts, bound: EntryFacts, owner: u32) -> bool {
    socket.kind == EntryKind::Socket && same_entry(socket, bound) && socket.uid == owner
        && permissions(socket) == 0x180
}

/// Checks the socket of a control endpoint after its permissions were set.
pub fn check_control_socket(socket: &EntryFacts, bound: &EntryFacts, owner: u32) -> (r: Result<
    (),
    IoFailure,
>)
    ensures
        failure_of(r) == (if private_socket(*socket, *bound, owner) {
            None
        } else {
            Some(
                (
                    FailureKind::PermissionDenied,
                    "control endpoint must be an owned Unix socket with mode 0600"@,
                ),
            )
        }),
{
    if socket.kind != EntryKind::Socket || socket.device != bound.device || socket.inode
        != bound.inode || socket.uid != owner || socket.mode & 0xfff != 0x180 {
        return Err(
            fail(
                FailureKind::PermissionDenied,
                "control endpoint must be an owned Unix socket with mode 0600",
            ),
        );
    }
    Ok(())
}

/// Whether the entry at a path is still the socket that was bound there, so that
/// it may be removed.
pub fn may_remove_socket(current: Option<&EntryFacts>, bound: &EntryFacts) -> (b: bool)
    ensures
        b == (current is Some && current->0.kind == EntryKind::Socket && same_entry(
            *current->0,
            *bound,
        )),
{
    match current {
        Some(current) => current.kind == EntryKind::Socket && current.device == bound.device
            && current.inode == bound.inode,
        None => false,
    }
}

/// The bytes of a control capability.
pub const CAPABILITY_LEN: usize = 32;

/// One read from the pipe that a capability comes through.
#[derive(Debug)]
pub enum PipeRead {
    /// Bytes, at least one.
    Data(Vec<u8>),
    /// The writer has closed the pipe.
    End,
    /// The read was interrupted.
    Interrupted,
    /// There is nothing to read yet.
    WouldBlock,
    /// The read failed.
    Failed(IoFailure),
}

/// What the reader of a capability does next.
#[derive(Debug)]
pub enum ReaderStep {
    /// Reads again.
    Again,
    /// Hands out the capability.
    Done([u8; 32]),
    Refused(IoFailure),
}

/// The reader of a control capability. It takes one byte more than a capability
/// has, so that a longer payload is noticed.
#[derive(Debug)]
pub struct CapabilityReader {
    pub bytes: Vec<u8>,
}

impl CapabilityReader {
    /// The reader has room for at least one more byte.
    pub open spec fn wf(self) -> bool {
        self.bytes@.len() <= CAPABILITY_LEN
    }

    pub fn new() -> (r: CapabilityReader)
        ensures
            r.wf(),
            r.bytes@.len() == 0,
    {
        CapabilityReader { bytes: Vec::new() }
    }

    /// How many bytes the next read may take.
    pub fn room(&self) -> (n: usize)
        requires
            self.wf(),
        ensures
            n == CAPABILITY_LEN + 1 - self.bytes@.len(),
            n >= 1,
    {
        CAPABILITY_LEN + 1 - self.bytes.len()
    }

    /// Takes in one read.
    pub fn accept(&mut self, read: PipeRead) -> (step: ReaderStep)
        requires
            old(self).wf(),
            read matches PipeRead::Data(data) ==> data@.len() <= CAPABILITY_LEN + 1
                - old(self).bytes@.len(),
        ensures
            match read {
                PipeRead::Data(data) => {
                    &&& final(self).bytes@ == old(self).bytes@ + data@
                    &&& if old(self).bytes@.len() + data@.len() > CAPABILITY_LEN {
                        step matches ReaderStep::Refused(e) && e@ == (
                            FailureKind::InvalidData,
                            "control authentication payload has an invalid length"@,
                        )
                    } else {
                        step is Again
                    }
                },
                PipeRead::End => {
                    &&& final(self).bytes@ == old(self).bytes@
                    &&& if old(self).bytes@.len() == CAPABILITY_LEN {
                        step matches ReaderStep::Done(capability) && capability@
                            == old(self).bytes@
                    } else {
                        step matches ReaderStep::Refused(e) && e@ == (
                            FailureKind::UnexpectedEof,
                            "control authentication payload has an invalid length"@,
                        )
                    }
                },
                PipeRead::Interrupted => final(self).bytes@ == old(self).bytes@ && step is Again,
                PipeRead::WouldBlock => {
                    &&& final(self).bytes@ == old(self).bytes@
                    &&& step matches ReaderStep::Refused(e) && e@ == (
                        FailureKind::TimedOut,
                        "control authentication writer was not closed"@,
                    )
                },
                PipeRead::Failed(e) => {
                    &&& final(self).bytes@ == old(self).bytes@
                    &&& step == ReaderStep::Refused(e)
                },
            },
            step is Again ==> final(self).wf(),
    {
        match read {
            PipeRead::Data(data) => {
                let mut i: usize = 0;
                let ghost before = self.bytes@;
                assert(before + data@.take(0) =~= before);
                while i < data.len()
                    invariant
                        i <= data@.len(),
                        self.bytes@ == before + data@.take(i as int),
                    decreases data@.len() - i,
                {
                    self.bytes.push(data[i]);
                    assert(self.bytes@ =~= before + data@.take(i + 1));
                    i += 1;
                }
                assert(data@.take(i as int) =~= data@);
                if self.bytes.len() > CAPABILITY_LEN {
                    return ReaderStep::Refused(
                        fail(
                            FailureKind::InvalidData,
                            "control authentication payload has an invalid length",
                        ),
                    );
                }
                ReaderStep::Again
            },
            PipeRead::End => {
                if self.bytes.len() != CAPABILITY_LEN {
                    return ReaderStep::Refused(
                        fail(
                            FailureKind::UnexpectedEof,
                            "control authentication payload has an invalid length",
                        ),
                    );
                }
                let mut capability: [u8; 32] = [0u8; 32];
                let mut i: usize = 0;
                while i < 32
                    invariant
                        i <= 32,
                        self.bytes@.len() == 32,
                        self.bytes@ == old(self).bytes@,
                        capability@.len() == 32,
                        forall|k: int| 0 <= k < i ==> #[trigger] capability@[k] == self.bytes@[k],
                    decreases 32 - i,
                {
                    capability[i] = self.bytes[i];
                    i += 1;
                }
                assert(capability@ =~= self.bytes@);
                ReaderStep::Done(capability)
            },
            PipeRead::Interrupted => ReaderStep::Again,
            PipeRead::WouldBlock => ReaderStep::Refused(
                fail(FailureKind::TimedOut, "control authentication writer was not closed"),
            ),
            PipeRead::Failed(e) => ReaderStep::Refused(e),
        }
    }
}

/// Checks that a capability comes through a one-way pipe.
pub fn check_capability_pipe(entry: &EntryFacts) -> (r: Result<(), IoFailure>)
    ensures
        failure_of(r) == (if entry.kind == EntryKind::Fifo {
            None
        } else {
            Some(
                (
                    FailureKind::InvalidInput,
                    "control authentication handle is not a one-way pipe"@,
                ),
            )
        }),
{
    if entry.kind != EntryKind::Fifo {
        return Err(
            fail(
                FailureKind::InvalidInput,
                "control authentication handle is not a one-way pipe",
            ),
        );
    }
    Ok(())
}

/// The bytes of some chunks, one after the other.
pub open spec fn payload(chunks: Seq<Seq<u8>>) -> Seq<u8>
    decreases chunks.len(),
{
    if chunks.len() == 0 {
        Seq::empty()
    } else {
        chunks[0] + payload(chunks.skip(1))
    }
}

/// How a reader comes out that has some bytes, once it has taken in some chunks and
/// the end: with a capability, or with the kind of its refusal.
pub open spec fn read_all(bytes: Seq<u8>, chunks: Seq<Seq<u8>>) -> Result<Seq<u8>, FailureKind>
    decreases chunks.len(),
{
    if chunks.len() == 0 {
        if bytes.len() == CAPABILITY_LEN {
            Ok(bytes)
        } else {
            Err(FailureKind::UnexpectedEof)
        }
    } else if bytes.len() + chunks[0].len() > CAPABILITY_LEN {
        Err(FailureKind::InvalidData)
    } else {
        read_all(bytes + chunks[0], chunks.skip(1))
    }
}

proof fn lemma_read_all(bytes: Seq<u8>, chunks: Seq<Seq<u8>>)
    requires
        bytes.len() <= CAPABILITY_LEN,
    ensures
        read_all(bytes, chunks) == (if bytes.len() + payload(chunks).len() == CAPABILITY_LEN {
            Ok(bytes + payload(chunks))
        } else if bytes.len() + payload(chunks).len() > CAPABILITY_LEN {
            Err(FailureKind::InvalidData)
        } else {
            Err(FailureKind::UnexpectedEof)
        }),
    decreases chunks.len(),
{
    if chunks.len() == 0 {
        assert(bytes + payload(chunks) =~= bytes);
    } else if bytes.len() + chunks[0].len() <= CAPABILITY_LEN {
        lemma_read_all(bytes + chunks[0], chunks.skip(1));
        assert((bytes + chunks[0]) + payload(chunks.skip(1)) =~= bytes + payload(chunks));
    }
}

/// However a payload is cut into chunks, it is handed out whole where it has the
/// length of a capability, and refused where it is longer or shorter.
pub proof fn law_capability_is_the_whole_payload(chunks: Seq<Seq<u8>>)
    ensures
        read_all(Seq::empty(), chunks) == (if payload(chunks).len() == CAPABILITY_LEN {
            Ok(payload(chunks))
        } else if payload(chunks).len() > CAPABILITY_LEN {
            Err(FailureKind::InvalidData)
        } else {
            Err(FailureKind::UnexpectedEof)
        }),
{
    lemma_read_all(Seq::empty(), chunks);
    assert(Seq::<u8>::empty() + payload(chunks) =~= payload(chunks));
}

/// The console socket of a microVM, to be removed when the machine ends if it is
/// still the same.
#[derive(Debug)]
pub struct MicrovmConsoleSocketCleanup {
    pub path: String,
    pub device: u64,
    pub inode: u64,
}

/// What the host found at the path of a socket.
#[derive(Debug)]
pub enum Found {
    Missing,
    Entry(EntryFacts),
    Failed(Refusal),
}

impl MicrovmConsoleSocketCleanup {
    /// Remembers the socket that was bound at a path.
    pub fn new(path: String, entry: &Result<EntryFacts, Refusal>) -> (r: Result<
        MicrovmConsoleSocketCleanup,
        Refusal,
    >)
        ensures
            refusal_of(r) == (match *entry {
                Err(_) => Some("failed to inspect console socket "@ + path@),
                Ok(facts) => if facts.kind == EntryKind::Socket {
                    None
                } else {
                    Some("microVM console path is not a Unix socket: "@ + path@)
                },
            }),
            r is Ok ==> r->Ok_0.path == path && r->Ok_0.device == entry->Ok_0.device
                && r->Ok_0.inode == entry->Ok_0.inode,
    {
        match entry {
            Err(_) => Err(refuse_naming("failed to inspect console socket ", path.as_str())),
            Ok(facts) => {
                if facts.kind != EntryKind::Socket {
                    return Err(
                        refuse_naming(
                            "microVM console path is not a Unix socket: ",
                            path.as_str(),
                        ),
                    );
                }
                Ok(
                    MicrovmConsoleSocketCleanup {
                        path,
                        device: facts.device,
                        inode: facts.inode,
                    },
                )
            },
        }
    }

    /// Whether what is at the path is removed: only where it is the socket that
    /// was bound there.
    pub fn remove_if_owned(&self, found: &Found) -> (r: Result<bool, Refusal>)
        ensures
            match *found {
                Found::Missing => r == Ok::<bool, Refusal>(false),
                Found::Failed(e) => refusal_of(r) == Some(e@),
                Found::Entry(facts) => if facts.kind == EntryKind::Socket && facts.device
                    == self.device && facts.inode == self.inode {
                    r == Ok::<bool, Refusal>(true)
                } else {
                    refusal_of(r) == Some(
                        "microVM console socket ownership changed: "@ + self.path@,
                    )
                },
            },
    {
        match found {
            Found::Missing => Ok(false),
            Found::Failed(e) => Err(refuse(e.message.as_str())),
            Found::Entry(facts) => {
                if facts.kind == EntryKind::Socket && facts.device == self.device
                    && facts.inode == self.inode {
                    Ok(true)
                } else {
                    Err(
                        refuse_naming(
                            "microVM console socket ownership changed: ",
                            self.path.as_str(),
                        ),
                    )
                }
            },
        }
    }
}

/// Whether an entry in the way of a new socket is removed: only where it is a
/// socket itself.
pub fn clears_path(entry: Option<&EntryFacts>) -> (b: bool)
    ensures
        b == (entry is Some && entry->0.kind == EntryKind::Socket),
{
    match entry {
        Some(entry) => entry.kind == EntryKind::Socket,
        None => false,
    }
}

/// What the host found out about the path of a console endpoint.
#[derive(Debug)]
pub struct EndpointPath {
    /// The last component, where the path has one.
    pub file_name: Option<String>,
    /// The canonical form of the rest, or why it has none; nothing where there is
    /// no rest.
    pub parent: Option<Result<String, Refusal>>,
    /// The entry at the canonical path is a symbolic link.
    pub is_symlink: bool,
}

/// A name below a directory.
pub open spec fn joined_path(parent: Seq<char>, name: Seq<char>) -> Seq<char> {
    if has_suffix(parent, "/"@) {
        parent + name
    } else {
        parent + "/"@ + name
    }
}

/// Why an endpoint path is refused, if it is.
pub open spec fn endpoint_path_refusal(path: EndpointPath) -> Option<Seq<char>> {
    match (path.file_name, path.parent) {
        (None, _) => Some("microVM console endpoint must name a socket or pipe"@),
        (Some(_), None) => Some("microVM console endpoint has no parent directory"@),
        (Some(_), Some(Err(e))) => Some(e@),
        (Some(name), Some(Ok(parent))) => if path.is_symlink {
            Some(
                "microVM console endpoint must not be a symbolic link: "@ + joined_path(
                    parent@,
                    name@,
                ),
            )
        } else {
            None
        },
    }
}

fn ends_with_slash(text: &str) -> (b: bool)
    ensures
        b == has_suffix(text@, "/"@),
{
    let chars = chars_of(text);
    proof {
        reveal_strlit("/");
    }
    if chars.len() == 0 {
        return false;
    }
    let last = chars[chars.len() - 1];
    proof {
        let n = text@.len() as int;
        assert(text@.skip(n - 1) =~= seq![text@[n - 1]]);
        assert("/"@ =~= seq!['/']);
        if last == '/' {
            assert(text@.skip(n - 1) =~= "/"@);
        } else {
            assert(text@.skip(n - 1)[0] != "/"@[0]);
        }
    }
    last == '/'
}

/// The canonical path of a console endpoint.
pub fn canonical_microvm_console_path(path: &EndpointPath) -> (r: Result<String, Refusal>)
    ensures
        refusal_of(r) == endpoint_path_refusal(*path),
        r is Ok ==> r->Ok_0@ == joined_path(path.parent->0->Ok_0@, path.file_name->0@),
{
    let name = match &path.file_name {
        Some(name) => name,
        None => return Err(refuse("microVM console endpoint must name a socket or pipe")),
    };
    let parent = match &path.parent {
        None => return Err(refuse("microVM console endpoint has no parent directory")),
        Some(Err(e)) => return Err(refuse(e.message.as_str())),
        Some(Ok(parent)) => parent,
    };
    let mut canonical = parent.as_str().to_owned();
    if !ends_with_slash(parent.as_str()) {
        push_text(&mut canonical, "/");
    }
    push_text(&mut canonical, name.as_str());
    if path.is_symlink {
        return Err(
            refuse_naming(
                "microVM console endpoint must not be a symbolic link: ",
                canonical.as_str(),
            ),
        );
    }
    Ok(canonical)
}

/// The path with its backslashes turned.
pub open spec fn normalized(path: Seq<char>) -> Seq<char> {
    path.map_values(|c: char| if c == '\\' { '/' } else { c })
}

/// The prefix of Windows named pipes.
pub const NAMED_PIPE_PREFIX: &'static str = "//./pipe/";

/// Checks that a readiness path on Windows names a pipe.
pub fn check_restore_ready_pipe(path: &str) -> (r: Result<(), IoFailure>)
    ensures
        failure_of(r) == (if has_prefix(normalized(path@), NAMED_PIPE_PREFIX@)
            && normalized(path@).len() != NAMED_PIPE_PREFIX@.len() {
            None
        } else {
            Some(
                (
                    FailureKind::InvalidInput,
                    "restore readiness path must name a Windows //./pipe/... endpoint"@,
                ),
            )
        }),
{
    let mut chars = chars_of(path);
    let mut i: usize = 0;
    while i < chars.len()
        invariant
            i <= chars@.len() == path@.len(),
            forall|k: int| 0 <= k < i ==> #[trigger] chars@[k] == normalized(path@)[k],
            forall|k: int| i <= k < chars@.len() ==> #[trigger] chars@[k] == path@[k],
        decreases chars@.len() - i,
    {
        if chars[i] == '\\' {
            chars.set(i, '/');
        }
        i += 1;
    }
    assert(chars@ =~= normalized(path@));
    let text = string_of(chars.as_slice());
    let prefix = chars_of(NAMED_PIPE_PREFIX);
    if !starts_with(text.as_str(), NAMED_PIPE_PREFIX) || chars.len() == prefix.len() {
        return Err(
            fail(
                FailureKind::InvalidInput,
                "restore readiness path must name a Windows //./pipe/... endpoint",
            ),
        );
    }
    Ok(())
}

} // verus!
