//! Process identifiers, process handles and the names of executable images.
//!
//! Every function here takes what the system answered as plain data and
//! decides what follows from it. Making the calls is left to the caller.

use crate::error::Error;
use crate::sized_query::{
    entry_count, lemma_fill_yields_probed_count, reported, take_reported, whole_entries,
    QueryReply, QueryReplyView,
};
use vstd::prelude::*;
use vstd::utf8::*;

verus! {

/// The right to carry out operations on the address space of a process.
pub const PROCESS_VM_OPERATION: u32 = 0x0008;

/// The right to read the memory of a process.
pub const PROCESS_VM_READ: u32 = 0x0010;

/// The right to write the memory of a process.
pub const PROCESS_VM_WRITE: u32 = 0x0020;

/// The right to query basic information about a process.
pub const PROCESS_QUERY_INFORMATION: u32 = 0x0400;

/// The rights that a handle is asked for: to query, to read, to write and to
/// operate on memory. Naming a process needs the first two only; the others
/// are asked for along with them.
pub const OPEN_ACCESS: u32 = PROCESS_QUERY_INFORMATION | PROCESS_VM_READ | PROCESS_VM_WRITE
    | PROCESS_VM_OPERATION;

/// Whether handles are to be inherited by child processes: never.
pub const OPEN_INHERIT: bool = false;

/// The byte width of one process identifier in a buffer.
pub const PID_WIDTH: u32 = 4;

/// The largest number of identifiers that one enumeration is given room for.
pub const MAX_PIDS: u32 = 1024;

/// The byte capacity of the buffer that a module's base name is written to.
pub const MAX_PROC_NAME_LEN: u32 = 64;

/// Whether the access mask `mask` holds every bit of `right`.
pub open spec fn grants(mask: u32, right: u32) -> bool {
    mask & right == right
}

/// The access mask that handles are asked for holds each of the four rights
/// and no bit besides.
pub proof fn lemma_open_access_rights()
    ensures
        OPEN_ACCESS == 0x0438,
        grants(OPEN_ACCESS, PROCESS_QUERY_INFORMATION),
        grants(OPEN_ACCESS, PROCESS_VM_READ),
        grants(OPEN_ACCESS, PROCESS_VM_WRITE),
        grants(OPEN_ACCESS, PROCESS_VM_OPERATION),
{
    assert(0x0400u32 | 0x0010u32 | 0x0020u32 | 0x0008u32 == 0x0438u32) by (bit_vector);
    assert(0x0438u32 & 0x0400u32 == 0x0400u32) by (bit_vector);
    assert(0x0438u32 & 0x0010u32 == 0x0010u32) by (bit_vector);
    assert(0x0438u32 & 0x0020u32 == 0x0020u32) by (bit_vector);
    assert(0x0438u32 & 0x0008u32 == 0x0008u32) by (bit_vector);
}

/// The byte width of one module handle in a buffer: that of a pointer.
pub open spec fn module_width() -> nat {
    (usize::BITS / 8) as nat
}

/// Computes the byte width of one module handle in a buffer.
pub fn module_handle_width() -> (width: u32)
    ensures
        width == module_width(),
        width == 4 || width == 8,
{
    usize::BITS / 8
}

/// The identifiers that an enumeration yields: those that the reported byte
/// count stands for, in the order of the buffer, or the failure of the query.
pub open spec fn enumerated(reply: QueryReplyView<u32>) -> Result<
    Seq<u32>,
    Error,
> {
    if reply.ok {
        Ok(reported(reply.buffer, reply.bytes as nat, PID_WIDTH as nat))
    } else {
        Err(Error::EnumerationFailed { code: reply.code })
    }
}

/// Takes the identifiers of the running processes out of the system's answer
/// to an enumeration.
///
/// The answer counts in bytes; the result holds the identifiers that those
/// bytes stand for and nothing of the buffer beyond them. Where more
/// processes run than the buffer had room for, the result is the full buffer
/// and the rest goes unseen.
#[allow(non_snake_case)]
pub fn enumProcs(reply: QueryReply<u32>) -> (result: Result<Vec<u32>, Error>)
    ensures
        result is Ok <==> reply.ok,
        result matches Ok(pids) ==> enumerated(reply@) == Ok::<Seq<u32>, Error>(pids@),
        result matches Err(e) ==> enumerated(reply@) == Err::<Seq<u32>, Error>(e),
{
    if reply.ok {
        Ok(take_reported(reply.buffer, reply.bytes, PID_WIDTH))
    } else {
        Err(Error::EnumerationFailed { code: reply.code })
    }
}

/// A handle to one process, as the system handed it out for the process's
/// identifier.
///
/// A value stands for a handle that is still open. It cannot be copied, and
/// [`Process::release`] uses it up.
#[derive(Debug)]
pub struct Process {
    pid: u32,
    handle: usize,
}

/// What follows from the system's answer to a request for a handle.
pub open spec fn opened(pid: u32, handle: usize, code: u32) -> Result<(u32, usize), Error> {
    if handle != 0 {
        Ok((pid, handle))
    } else {
        Err(Error::OpenFailed { pid, code })
    }
}

/// The number of module handles to make room for after a size query.
pub open spec fn module_capacity(pid: u32, probe: QueryReplyView<usize>)
    -> Result<nat, Error> {
    if probe.ok {
        Ok(whole_entries(probe.bytes as nat, module_width()))
    } else {
        Err(Error::ModuleQueryFailed { pid, code: probe.code })
    }
}

/// The modules that a filled buffer yields, first the executable image.
pub open spec fn modules_of(pid: u32, fill: QueryReplyView<usize>) -> Result<
    Seq<usize>,
    Error,
> {
    if fill.ok {
        Ok(reported(fill.buffer, fill.bytes as nat, module_width()))
    } else {
        Err(Error::ModuleQueryFailed { pid, code: fill.code })
    }
}

/// The bytes of a name buffer that the system wrote.
pub open spec fn written_bytes(buffer: Seq<u8>, written: u32) -> Seq<u8> {
    reported(buffer, written as nat, 1)
}

/// The name that a name buffer yields. No byte written is a failure of the
/// query; bytes that are not well-formed UTF-8 are a failure to decode, and
/// no part of them becomes a name.
pub open spec fn name_of(pid: u32, buffer: Seq<u8>, written: u32, code: u32) -> Result<
    Seq<char>,
    Error,
> {
    if written == 0 {
        Err(Error::NameResolutionFailed { pid, code })
    } else if valid_utf8(written_bytes(buffer, written)) {
        Ok(decode_utf8(written_bytes(buffer, written)))
    } else {
        Err(Error::NameDecodeFailed { pid })
    }
}

/// Size, then fill, for the modules of a process: where the size query
/// succeeds, the fill query is offered the room that the size query asked
/// for and succeeds with no fewer bytes than the size query reported, the
/// result holds exactly as many module handles as the size query counted.
pub proof fn lemma_modules_match_probe(
    pid: u32,
    probe: QueryReplyView<usize>,
    fill: QueryReplyView<usize>,
)
    requires
        probe.ok,
        fill.ok,
        module_capacity(pid, probe) == Ok::<nat, Error>(fill.buffer.len()),
        whole_entries(fill.bytes as nat, module_width()) >= whole_entries(
            probe.bytes as nat,
            module_width(),
        ),
    ensures
        modules_of(pid, fill) == Ok::<Seq<usize>, Error>(fill.buffer),
        modules_of(pid, fill)->Ok_0.len() == whole_entries(probe.bytes as nat, module_width()),
{
    lemma_fill_yields_probed_count(
        probe.bytes as nat,
        fill.buffer,
        fill.bytes as nat,
        module_width(),
    );
}

impl Process {
    #[verifier::type_invariant]
    spec fn is_open(self) -> bool {
        self.handle != 0
    }

    /// The identifier that the handle was opened for.
    pub closed spec fn id(self) -> u32 {
        self.pid
    }

    /// The value of the handle.
    pub closed spec fn raw(self) -> usize {
        self.handle
    }

    /// Makes a process handle of the system's answer to a request for one.
    ///
    /// `handle` is the value that came back and `code` the error code that
    /// the system holds for the call. A null handle is a failure, and no
    /// [`Process`] exists then.
    pub fn open(pid: u32, handle: usize, code: u32) -> (result: Result<Process, Error>)
        ensures
            result is Ok <==> handle != 0,
            result matches Ok(process) ==> opened(pid, handle, code) == Ok::<(u32, usize), Error>(
                (process.id(), process.raw()),
            ),
            result matches Err(e) ==> opened(pid, handle, code) == Err::<(u32, usize), Error>(e),
    {
        if handle != 0 {
            Ok(Process { pid, handle })
        } else {
            Err(Error::OpenFailed { pid, code })
        }
    }

    /// The identifier that the handle was opened for.
    pub fn pid(&self) -> (pid: u32)
        ensures
            pid == self.id(),
    {
        self.pid
    }

    /// The handle's value, to put requests to the system with. It is never
    /// null.
    pub fn handle(&self) -> (handle: usize)
        ensures
            handle == self.raw(),
            handle != 0,
    {
        proof {
            use_type_invariant(self);
        }
        self.handle
    }

    /// Gives the handle up: the result is the value to close, and the
    /// process handle is gone.
    pub fn release(self) -> (handle: usize)
        ensures
            handle == self.raw(),
            handle != 0,
    {
        proof {
            use_type_invariant(&self);
        }
        self.handle
    }

    /// Reads the answer to a module query that offered no room: the number
    /// of module handles that the next query must make room for.
    pub fn module_room(&self, probe: &QueryReply<usize>) -> (result: Result<u32, Error>)
        ensures
            result is Ok <==> probe.ok,
            result matches Ok(entries) ==> module_capacity(self.id(), probe@) == Ok::<nat, Error>(
                entries as nat,
            ),
            result matches Ok(entries) ==> entries * module_width() <= probe.bytes,
            result matches Err(e) ==> module_capacity(self.id(), probe@) == Err::<nat, Error>(e),
    {
        if probe.ok {
            let width = module_handle_width();
            let entries = entry_count(probe.bytes, width);
            assert(entries * width <= probe.bytes) by (nonlinear_arith)
                requires
                    width > 0,
                    entries == probe.bytes as nat / width as nat,
            ;
            Ok(entries)
        } else {
            Err(Error::ModuleQueryFailed { pid: self.pid, code: probe.code })
        }
    }

    /// Takes the module handles of the process out of the system's answer to
    /// a module query, in the order in which the system wrote them: the
    /// first is the executable image.
    pub fn enum_module(&self, fill: QueryReply<usize>) -> (result: Result<Vec<usize>, Error>)
        ensures
            result is Ok <==> fill.ok,
            result matches Ok(modules) ==> modules_of(self.id(), fill@) == Ok::<Seq<usize>, Error>(
                modules@,
            ),
            result matches Err(e) ==> modules_of(self.id(), fill@) == Err::<Seq<usize>, Error>(e),
    {
        if fill.ok {
            Ok(take_reported(fill.buffer, fill.bytes, module_handle_width()))
        } else {
            Err(Error::ModuleQueryFailed { pid: self.pid, code: fill.code })
        }
    }

    /// Decodes the base name of a module of the process from the buffer that
    /// the system wrote it to. `written` is the number of bytes written and
    /// `code` the error code that the system holds for the call.
    pub fn name(&self, buffer: Vec<u8>, written: u32, code: u32) -> (result: Result<
        String,
        Error,
    >)
        ensures
            result matches Ok(name) ==> name_of(self.id(), buffer@, written, code) == Ok::<
                Seq<char>,
                Error,
            >(name@),
            result matches Err(e) ==> name_of(self.id(), buffer@, written, code) == Err::<
                Seq<char>,
                Error,
            >(e),
            written != 0 && !valid_utf8(written_bytes(buffer@, written)) ==> result == Err::<
                String,
                Error,
            >(Error::NameDecodeFailed { pid: self.id() }),
    {
        if written == 0 {
            return Err(Error::NameResolutionFailed { pid: self.pid, code });
        }
        let bytes = take_reported(buffer, written, 1);
        match String::from_utf8(bytes) {
            Ok(name) => {
                proof {
                    encode_utf8_decode_utf8(name@);
                }
                Ok(name)
            },
            Err(_) => Err(Error::NameDecodeFailed { pid: self.pid }),
        }
    }
}

} // verus!
