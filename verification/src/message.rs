//! The message codec: a fixed 90-byte request/response buffer, its XOR
//! checksum, and validation of a raw response against the request it answers.

use vstd::prelude::*;

verus! {

/// Every message on the wire is exactly this many bytes long.
pub const MESSAGE_LEN: usize = 90;

/// The checksum at offset 88 covers bytes 2 through 87 inclusive.
pub const CHECKSUM_LO: usize = 2;

/// One past the last checksum-covered offset.
pub const CHECKSUM_HI: usize = 88;

/// Offset of the checksum byte itself.
pub const CHECKSUM_BYTE: usize = 88;

/// XOR of the bytes of `s` at offsets `lo..hi`, folded left to right.
pub open spec fn xor_fold(s: Seq<u8>, lo: int, hi: int) -> u8
    decreases hi - lo,
{
    if lo >= hi {
        0u8
    } else {
        xor_fold(s, lo, hi - 1) ^ s[hi - 1]
    }
}

/// The message checksum: XOR of bytes 2..88.
pub open spec fn checksum_spec(s: Seq<u8>) -> u8 {
    xor_fold(s, CHECKSUM_LO as int, CHECKSUM_HI as int)
}

/// The all-zero message contents.
pub open spec fn zero_message() -> Seq<u8> {
    Seq::new(MESSAGE_LEN as nat, |i: int| 0u8)
}

/// A valid response reports status 2 at byte 0.
pub open spec fn status_ok(resp: Seq<u8>) -> bool {
    resp[0] == 2
}

/// A valid response carries its own checksum at byte 88.
pub open spec fn checksum_ok(resp: Seq<u8>) -> bool {
    resp[CHECKSUM_BYTE as int] == checksum_spec(resp)
}

/// A valid response echoes the request's command header, bytes 1..8,
/// unchanged.
pub open spec fn echo_ok(req: Seq<u8>, resp: Seq<u8>) -> bool {
    forall|i: int| 1 <= i < 8 ==> resp[i] == req[i]
}

/// A response is accepted for a request exactly when all three checks pass.
pub open spec fn valid_response(req: Seq<u8>, resp: Seq<u8>) -> bool {
    status_ok(resp) && checksum_ok(resp) && echo_ok(req, resp)
}

/// The fold depends only on the bytes inside its range.
proof fn lemma_xor_fold_congruence(s: Seq<u8>, t: Seq<u8>, lo: int, hi: int)
    requires
        forall|i: int| lo <= i < hi ==> s[i] == t[i],
    ensures
        xor_fold(s, lo, hi) == xor_fold(t, lo, hi),
    decreases hi - lo,
{
    if lo < hi {
        lemma_xor_fold_congruence(s, t, lo, hi - 1);
    }
}

/// Replacing the byte at `j` XORs the fold with `old ^ new`.
proof fn lemma_xor_fold_update(s: Seq<u8>, lo: int, hi: int, j: int, b: u8)
    requires
        0 <= lo <= hi <= s.len(),
        lo <= j < hi,
    ensures
        xor_fold(s.update(j, b), lo, hi) == xor_fold(s, lo, hi) ^ (s[j] ^ b),
    decreases hi - lo,
{
    let t = s.update(j, b);
    let f = xor_fold(s, lo, hi - 1);
    let a = s[j];
    if j == hi - 1 {
        lemma_xor_fold_congruence(t, s, lo, hi - 1);
        assert(f ^ b == (f ^ a) ^ (a ^ b)) by (bit_vector);
    } else {
        lemma_xor_fold_update(s, lo, hi - 1, j, b);
        let x = s[hi - 1];
        assert((f ^ (a ^ b)) ^ x == (f ^ x) ^ (a ^ b)) by (bit_vector);
    }
}

/// Changing exactly one byte in the covered range 2..88 always changes the
/// checksum, and does so by the XOR of the old and new byte.
pub proof fn lemma_checksum_byte_change(s: Seq<u8>, j: int, b: u8)
    requires
        s.len() == MESSAGE_LEN,
        CHECKSUM_LO as int <= j < CHECKSUM_HI as int,
        b != s[j],
    ensures
        checksum_spec(s.update(j, b)) == checksum_spec(s) ^ (s[j] ^ b),
        checksum_spec(s.update(j, b)) != checksum_spec(s),
{
    lemma_xor_fold_update(s, CHECKSUM_LO as int, CHECKSUM_HI as int, j, b);
    let a = s[j];
    let c = checksum_spec(s);
    assert(a != b ==> c ^ (a ^ b) != c) by (bit_vector);
}

/// Flipping any single bit of one byte in the covered range 2..88 flips that
/// same bit of the checksum; in particular the checksum changes.
pub proof fn lemma_checksum_bit_flip(s: Seq<u8>, j: int, k: u8)
    requires
        s.len() == MESSAGE_LEN,
        CHECKSUM_LO as int <= j < CHECKSUM_HI as int,
        k < 8,
    ensures
        checksum_spec(s.update(j, s[j] ^ (1u8 << k))) == checksum_spec(s) ^ (1u8 << k),
        checksum_spec(s.update(j, s[j] ^ (1u8 << k))) != checksum_spec(s),
{
    let a = s[j];
    let b = a ^ (1u8 << k);
    assert(b != a && (a ^ b) == (1u8 << k)) by (bit_vector)
        requires
            b == a ^ (1u8 << k),
            k < 8,
    ;
    lemma_checksum_byte_change(s, j, b);
}

/// Why a response was rejected.
#[derive(Clone, Copy, Debug, PartialEq, Eq, Structural)]
pub enum QueryError {
    /// Byte 0 of the response was not 2.
    InvalidStatus,
    /// Byte 88 of the response did not match the checksum of its bytes 2..88.
    InvalidChecksum,
    /// Bytes 1..8 of the response did not echo the request.
    MismatchedRequestResponse,
}

/// A request or response: a fixed 90-byte buffer with positional fields.
pub struct Message {
    data: Vec<u8>,
}

impl View for Message {
    type V = Seq<u8>;

    closed spec fn view(&self) -> Seq<u8> {
        self.data@
    }
}

impl Message {
    /// A well-formed message holds exactly 90 bytes.
    pub open spec fn wf(&self) -> bool {
        self@.len() == MESSAGE_LEN
    }

    /// Returns a zero-initialized message.
    pub fn new() -> (m: Message)
        ensures
            m.wf(),
            m@ == zero_message(),
    {
        let mut data: Vec<u8> = Vec::new();
        while data.len() < MESSAGE_LEN
            invariant
                data@.len() <= MESSAGE_LEN,
                forall|j: int| 0 <= j < data@.len() ==> data@[j] == 0,
            decreases MESSAGE_LEN - data@.len(),
        {
            data.push(0);
        }
        proof {
            assert(data@ =~= zero_message());
        }
        Message { data }
    }

    /// Wraps 90 raw bytes, as read from a device node, into a message;
    /// rejects any other length.
    pub fn from_bytes(data: Vec<u8>) -> (r: Option<Message>)
        ensures
            data@.len() == MESSAGE_LEN ==> (r matches Some(m) && m@ == data@ && m.wf()),
            data@.len() != MESSAGE_LEN ==> r is None,
    {
        if data.len() == MESSAGE_LEN {
            Some(Message { data })
        } else {
            None
        }
    }

    /// The raw bytes of the message, for handing to the transport.
    pub fn bytes(&self) -> (b: &Vec<u8>)
        ensures
            b@ == self@,
    {
        &self.data
    }

    /// Reads the byte at offset `i`.
    pub fn byte_at(&self, i: usize) -> (b: u8)
        requires
            self.wf(),
            i < MESSAGE_LEN,
        ensures
            b == self@[i as int],
    {
        self.data[i]
    }

    /// Overwrites the byte at offset `i`.
    pub fn set_byte(&mut self, i: usize, value: u8)
        requires
            old(self).wf(),
            i < MESSAGE_LEN,
        ensures
            final(self).wf(),
            final(self)@ == old(self)@.update(i as int, value),
    {
        self.data.set(i, value);
    }

    /// Calculates the checksum of a message: the XOR of its bytes 2..88.
    pub fn checksum(&self) -> (c: u8)
        requires
            self.wf(),
        ensures
            c == checksum_spec(self@),
    {
        let mut result: u8 = 0;
        let mut i: usize = CHECKSUM_LO;
        while i < CHECKSUM_HI
            invariant
                self.wf(),
                CHECKSUM_LO <= i <= CHECKSUM_HI,
                result == xor_fold(self@, CHECKSUM_LO as int, i as int),
            decreases CHECKSUM_HI - i,
        {
            result = result ^ self.data[i];
            i = i + 1;
        }
        result
    }

    /// Validates a raw response received for this request: the status byte
    /// must be 2, the response checksum must match its contents, and the
    /// response must echo the request's bytes 1..8.  Returns the first
    /// failure, checked in that order, or the response itself.
    pub fn query(&self, response: Message) -> (r: Result<Message, QueryError>)
        requires
            self.wf(),
            response.wf(),
        ensures
            r is Ok <==> valid_response(self@, response@),
            r matches Ok(m) ==> m@ == response@,
            r == Err::<Message, QueryError>(QueryError::InvalidStatus) <==> !status_ok(response@),
            r == Err::<Message, QueryError>(QueryError::InvalidChecksum) <==> status_ok(
                response@,
            ) && !checksum_ok(response@),
            r == Err::<Message, QueryError>(QueryError::MismatchedRequestResponse) <==> status_ok(
                response@,
            ) && checksum_ok(response@) && !echo_ok(self@, response@),
    {
        if response.byte_at(0) != 2 {
            return Err(QueryError::InvalidStatus);
        }
        let c = response.checksum();
        if response.byte_at(CHECKSUM_BYTE) != c {
            return Err(QueryError::InvalidChecksum);
        }
        let mut i: usize = 1;
        while i < 8
            invariant
                self.wf(),
                response.wf(),
                1 <= i <= 8,
                status_ok(response@),
                checksum_ok(response@),
                forall|j: int| 1 <= j < i ==> response@[j] == self@[j],
            decreases 8 - i,
        {
            if response.byte_at(i) != self.byte_at(i) {
                return Err(QueryError::MismatchedRequestResponse);
            }
            i = i + 1;
        }
        Ok(response)
    }
}

} // verus!
