//! Bounded reading of one `'\n'`-terminated line, as the bridge reads its
//! commands and the host reads the bridge's responses.
use vstd::prelude::*;
use vstd::string::{StrSliceExecFns, StringExecFns};
use vstd::slice::slice_to_vec;
use vstd::utf8::{decode_utf8, valid_utf8};
use crate::outside::utf8_to_string;
use crate::text::{decimal, u64_to_decimal};

verus! {

/// Maximum size of a single JSON IPC line, in bytes.
pub const MAX_IPC_LINE: usize = 67108864usize;

/// Bytes not yet consumed from an in-memory input stream.
pub struct ByteReader {
    data: Vec<u8>,
    pos: usize,
}

impl ByteReader {
    #[verifier::type_invariant]
    spec fn inv(self) -> bool {
        self.pos <= self.data@.len()
    }

    /// The bytes still to be read.
    pub closed spec fn remaining(self) -> Seq<u8> {
        self.data@.subrange(self.pos as int, self.data@.len() as int)
    }

    pub fn new(data: &[u8]) -> (r: Self)
        ensures
            r.remaining() == data@,
    {
        let v = slice_to_vec(data);
        let r = ByteReader { data: v, pos: 0 };
        assert(r.data@.subrange(0, r.data@.len() as int) =~= data@);
        r
    }

    /// Number of bytes still to be read.
    pub fn remaining_len(&self) -> (n: usize)
        ensures
            n == self.remaining().len(),
    {
        proof {
            use_type_invariant(self);
        }
        self.data.len() - self.pos
    }
}

/// Kind of a failed line read; both failures are invalid data.
#[derive(Debug, Clone, Copy, PartialEq, Eq)]
pub enum IpcErrorKind {
    InvalidData,
}

/// Why a line could not be read.
#[derive(Debug, Clone, PartialEq, Eq)]
pub enum IpcLineError {
    /// The bytes of the line are not UTF-8.
    InvalidUtf8,
    /// `limit` bytes were read without reaching a newline.
    TooLong { limit: usize },
}

pub open spec fn ipc_error_message(e: IpcLineError) -> Seq<char> {
    match e {
        IpcLineError::InvalidUtf8 => "stream did not contain valid UTF-8"@,
        IpcLineError::TooLong { limit } => "IPC line exceeds "@ + decimal(limit as nat) + " bytes"@,
    }
}

impl IpcLineError {
    pub fn kind(&self) -> (k: IpcErrorKind)
        ensures
            k == IpcErrorKind::InvalidData,
    {
        IpcErrorKind::InvalidData
    }

    pub fn message(&self) -> (text: String)
        ensures
            text@ == ipc_error_message(*self),
    {
        match self {
            IpcLineError::InvalidUtf8 => String::from_str("stream did not contain valid UTF-8"),
            IpcLineError::TooLong { limit } => {
                let mut s = String::from_str("IPC line exceeds ");
                let d = u64_to_decimal(*limit as u64);
                s.append(d.as_str());
                s.append(" bytes");
                s
            },
        }
    }
}

/// `n` is the number of bytes a line read takes from `data` when at most
/// `limit` bytes may be read: up to and including the first newline, or up
/// to the limit, or up to the end of the input, whichever comes first.
pub open spec fn is_line_extent(data: Seq<u8>, limit: nat, n: nat) -> bool {
    &&& n <= limit
    &&& n <= data.len()
    &&& forall|j: int| 0 <= j < n - 1 ==> data[j] != 10u8
    &&& (n == limit || n == data.len() || (n > 0 && data[n - 1] == 10u8))
}

/// Whether a string ends with a newline character.
pub open spec fn ends_with_newline(s: Seq<char>) -> bool {
    s.len() > 0 && s.last() == '\n'
}

/// Reads one line of at most `limit` bytes, appending it to `buf`.
///
/// The bytes taken are consumed whatever the outcome. When they are not
/// UTF-8 the read fails and `buf` is unchanged; otherwise their characters
/// are appended, and the read fails when exactly `limit` bytes were taken and
/// `buf` does not then end with a newline. On success the number of bytes
/// taken is returned (0 at the end of the input).
pub fn read_ipc_line_with_limit(reader: &mut ByteReader, buf: &mut String, limit: usize) -> (r:
    Result<usize, IpcLineError>)
    ensures
        exists|n: nat|
            {
                &&& is_line_extent(old(reader).remaining(), limit as nat, n)
                &&& final(reader).remaining() == old(reader).remaining().skip(n as int)
                &&& {
                    let taken = old(reader).remaining().take(n as int);
                    if !valid_utf8(taken) {
                        &&& r == Err::<usize, IpcLineError>(IpcLineError::InvalidUtf8)
                        &&& final(buf)@ == old(buf)@
                    } else {
                        &&& final(buf)@ == old(buf)@ + decode_utf8(taken)
                        &&& if n == limit && !ends_with_newline(final(buf)@) {
                            r == Err::<usize, IpcLineError>(IpcLineError::TooLong { limit })
                        } else {
                            r == Ok::<usize, IpcLineError>(n as usize)
                        }
                    }
                }
            },
{
    proof {
        use_type_invariant(&*reader);
    }
    let ghost rem = reader.remaining();
    let start = reader.pos;
    let mut taken: Vec<u8> = Vec::new();
    let mut i = start;
    let mut at_newline = false;
    while !at_newline && i < reader.data.len() && i - start < limit
        invariant
            start <= i <= reader.data@.len(),
            start == reader.pos,
            rem == reader.data@.subrange(start as int, reader.data@.len() as int),
            i - start <= limit,
            taken@ == rem.take(i - start),
            forall|j: int| 0 <= j < i - start - 1 ==> rem[j] != 10u8,
            at_newline ==> i - start > 0 && rem[i - start - 1] == 10u8,
            !at_newline ==> (i - start > 0 ==> rem[i - start - 1] != 10u8),
        decreases reader.data@.len() - i,
    {
        let b = reader.data[i];
        taken.push(b);
        i = i + 1;
        assert(taken@ =~= rem.take(i - start));
        at_newline = b == 10u8;
    }
    let ghost n: nat = (i - start) as nat;
    assert(is_line_extent(rem, limit as nat, n));
    reader.pos = i;
    assert(reader.remaining() =~= rem.skip(n as int));
    match utf8_to_string(taken) {
        None => Err(IpcLineError::InvalidUtf8),
        Some(text) => {
            buf.append(text.as_str());
            let count = i - start;
            if count == limit {
                let len = buf.as_str().unicode_len();
                let ends = len > 0 && buf.as_str().get_char(len - 1) == '\n';
                if !ends {
                    return Err(IpcLineError::TooLong { limit });
                }
            }
            Ok(count)
        },
    }
}

/// Reads one line capped at `MAX_IPC_LINE` bytes.
pub fn read_ipc_line(reader: &mut ByteReader, buf: &mut String) -> (r: Result<usize, IpcLineError>)
    ensures
        exists|n: nat|
            {
                &&& is_line_extent(old(reader).remaining(), MAX_IPC_LINE as nat, n)
                &&& final(reader).remaining() == old(reader).remaining().skip(n as int)
                &&& {
                    let taken = old(reader).remaining().take(n as int);
                    if !valid_utf8(taken) {
                        &&& r == Err::<usize, IpcLineError>(IpcLineError::InvalidUtf8)
                        &&& final(buf)@ == old(buf)@
                    } else {
                        &&& final(buf)@ == old(buf)@ + decode_utf8(taken)
                        &&& if n == MAX_IPC_LINE && !ends_with_newline(final(buf)@) {
                            r == Err::<usize, IpcLineError>(
                                IpcLineError::TooLong { limit: MAX_IPC_LINE },
                            )
                        } else {
                            r == Ok::<usize, IpcLineError>(n as usize)
                        }
                    }
                }
            },
{
    read_ipc_line_with_limit(reader, buf, MAX_IPC_LINE)
}

} // verus!
