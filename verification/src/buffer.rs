use vstd::prelude::*;

verus! {

/// Error returned when a host value cannot be represented on the wire: the
/// wire contract requires nul-terminated text, so text holding an embedded
/// nul byte is rejected rather than silently truncated.
#[derive(Clone, Copy, Debug, PartialEq, Eq, Structural)]
pub enum EncodeError {
    /// Index of the first embedded nul byte in the offered text.
    InteriorNul { position: usize },
}

/// An owned, nul-terminated text buffer. The wire carries text as the address
/// of such a buffer, so the terminator must be present and the content must
/// hold no nul of its own; both are kept as an invariant established at
/// construction.
#[derive(Debug)]
pub struct CBuf {
    bytes: Vec<u8>,
}

impl CBuf {
    /// Well-formedness: a final nul terminator and no interior nul.
    pub closed spec fn wf(self) -> bool {
        &&& self.bytes@.len() >= 1
        &&& self.bytes@[self.bytes@.len() - 1] == 0
        &&& forall|i: int| 0 <= i < self.bytes@.len() - 1 ==> self.bytes@[i] != 0
    }

    /// The text content, without the terminator.
    pub closed spec fn content(self) -> Seq<u8> {
        self.bytes@.subrange(0, self.bytes@.len() - 1)
    }

    /// The whole buffer as it sits in memory, terminator included.
    pub closed spec fn raw(self) -> Seq<u8> {
        self.bytes@
    }

    /// Builds a nul-terminated buffer from plain text. Fails, rather than
    /// truncating, when the text holds an embedded nul, and reports the
    /// position of the first one.
    pub fn new(text: Vec<u8>) -> (r: Result<CBuf, EncodeError>)
        ensures
            (r is Ok) <==> (forall|i: int| 0 <= i < text@.len() ==> text@[i] != 0),
            r matches Ok(c) ==> c.wf() && c.content() == text@,
            r matches Err(e) ==> ({
                &&& e matches EncodeError::InteriorNul { position }
                &&& 0 <= position < text@.len()
                &&& text@[position as int] == 0
                &&& forall|i: int| 0 <= i < position ==> text@[i] != 0
            }),
    {
        let n = text.len();
        let mut i: usize = 0;
        while i < n
            invariant
                n == text@.len(),
                i <= n,
                forall|j: int| 0 <= j < i ==> text@[j] != 0,
            decreases n - i,
        {
            if text[i] == 0 {
                return Err(EncodeError::InteriorNul { position: i });
            }
            i = i + 1;
        }
        let mut bytes = text;
        bytes.push(0);
        let c = CBuf { bytes };
        proof {
            assert(c.content() =~= c.bytes@.subrange(0, c.bytes@.len() - 1));
            assert(c.content() =~= text@);
        }
        Ok(c)
    }

    /// Length of the content, terminator not counted.
    pub fn content_len(&self) -> (r: usize)
        requires
            self.wf(),
        ensures
            r == self.content().len(),
    {
        self.bytes.len() - 1
    }

    /// Releases the backing storage: the whole nul-terminated buffer leaves
    /// this value's ownership and becomes the caller's to manage. Consuming
    /// `self` makes a second release of the same storage impossible.
    pub fn release(self) -> (r: Vec<u8>)
        ensures
            r@ == self.raw(),
    {
        self.bytes
    }

    /// The content as a fresh vector, without the terminator.
    pub fn to_text(&self) -> (r: Vec<u8>)
        requires
            self.wf(),
        ensures
            r@ == self.content(),
    {
        let n = self.bytes.len() - 1;
        let mut out: Vec<u8> = Vec::new();
        let mut i: usize = 0;
        while i < n
            invariant
                n == self.bytes@.len() - 1,
                i <= n,
                out@ =~= self.bytes@.subrange(0, i as int),
            decreases n - i,
        {
            out.push(self.bytes[i]);
            i = i + 1;
        }
        proof {
            assert(out@ =~= self.content());
        }
        out
    }

    /// A second buffer holding the same bytes; well-formedness depends only
    /// on the bytes, so it carries over.
    pub fn duplicate(&self) -> (r: CBuf)
        ensures
            r.raw() == self.raw(),
            r.wf() == self.wf(),
    {
        let n = self.bytes.len();
        let mut out: Vec<u8> = Vec::new();
        let mut i: usize = 0;
        while i < n
            invariant
                n == self.bytes@.len(),
                i <= n,
                out@ =~= self.bytes@.subrange(0, i as int),
            decreases n - i,
        {
            out.push(self.bytes[i]);
            i = i + 1;
        }
        proof {
            assert(out@ =~= self.bytes@);
        }
        CBuf { bytes: out }
    }
}

/// Law: a well-formed buffer is its content followed by one terminator, and
/// the content holds no nul. In particular empty content gives the one-byte
/// buffer holding only the terminator.
pub proof fn lemma_cbuf_shape(c: CBuf)
    requires
        c.wf(),
    ensures
        c.raw() =~= c.content().push(0u8),
        forall|i: int| 0 <= i < c.content().len() ==> c.content()[i] != 0,
{
}

/// Law: well-formedness depends only on the bytes in memory.
pub proof fn lemma_raw_determines_wf(a: CBuf, b: CBuf)
    requires
        a.raw() == b.raw(),
    ensures
        a.wf() == b.wf(),
{
}

/// Law: two well-formed buffers with the same bytes in memory carry the same
/// content.
pub proof fn lemma_raw_determines_content(a: CBuf, b: CBuf)
    requires
        a.wf(),
        b.wf(),
        a.raw() == b.raw(),
    ensures
        a.content() == b.content(),
{
}

/// An owned, length-prefixed byte buffer. Bytes cross the wire as the address
/// of a descriptor carrying a pointer and an explicit length, since the data
/// is not self-terminating; any byte values, nul included, are allowed.
#[derive(Debug)]
pub struct ByteArray {
    data: Vec<u8>,
}

impl ByteArray {
    /// The buffer's content.
    pub closed spec fn content(self) -> Seq<u8> {
        self.data@
    }

    pub fn new(data: Vec<u8>) -> (r: ByteArray)
        ensures
            r.content() == data@,
    {
        ByteArray { data }
    }

    /// The explicit length carried beside the address.
    pub fn len(&self) -> (r: usize)
        ensures
            r == self.content().len(),
    {
        self.data.len()
    }

    /// Releases the backing storage to the caller.
    pub fn release(self) -> (r: Vec<u8>)
        ensures
            r@ == self.content(),
    {
        self.data
    }

    /// A second buffer holding the same bytes.
    pub fn duplicate(&self) -> (r: ByteArray)
        ensures
            r.content() == self.content(),
    {
        let n = self.data.len();
        let mut out: Vec<u8> = Vec::new();
        let mut i: usize = 0;
        while i < n
            invariant
                n == self.data@.len(),
                i <= n,
                out@ =~= self.data@.subrange(0, i as int),
            decreases n - i,
        {
            out.push(self.data[i]);
            i = i + 1;
        }
        proof {
            assert(out@ =~= self.data@);
        }
        ByteArray { data: out }
    }
}

} // verus!
