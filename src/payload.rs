use vstd::prelude::*;
use vstd::string::StringSliceAdditionalSpecFns;

verus! {

/// Largest message, in bytes, assumed for a payload type that states no bound of its own.
pub const DEFAULT_DATA_SIZE: usize = 8192;

/// A value that can be handed to a queue as a sequence of bytes.
pub trait Sendable {
    /// Largest number of bytes a value of this type is sent as.
    spec fn spec_data_size() -> nat;

    /// The bytes this value is sent as.
    spec fn spec_encoding(&self) -> Seq<u8>;

    /// Largest number of bytes a value of this type is sent as; queues for
    /// this payload are sized from it.
    fn data_size() -> (r: usize)
        ensures
            r as nat == Self::spec_data_size(),
    ;

    /// The bytes this value is sent as.
    fn encode(&self) -> (r: &[u8])
        ensures
            r@ == self.spec_encoding(),
    ;
}

impl Sendable for String {
    open spec fn spec_data_size() -> nat {
        DEFAULT_DATA_SIZE as nat
    }

    open spec fn spec_encoding(&self) -> Seq<u8> {
        vstd::utf8::encode_utf8(self@)
    }

    fn data_size() -> (r: usize) {
        DEFAULT_DATA_SIZE
    }

    fn encode(&self) -> (r: &[u8]) {
        self.as_str().as_bytes()
    }
}

impl<'a> Sendable for &'a str {
    open spec fn spec_data_size() -> nat {
        DEFAULT_DATA_SIZE as nat
    }

    open spec fn spec_encoding(&self) -> Seq<u8> {
        (*self).spec_bytes()
    }

    fn data_size() -> (r: usize) {
        DEFAULT_DATA_SIZE
    }

    fn encode(&self) -> (r: &[u8]) {
        (*self).as_bytes()
    }
}

impl<'a> Sendable for &'a [u8] {
    open spec fn spec_data_size() -> nat {
        DEFAULT_DATA_SIZE as nat
    }

    open spec fn spec_encoding(&self) -> Seq<u8> {
        (*self)@
    }

    fn data_size() -> (r: usize) {
        DEFAULT_DATA_SIZE
    }

    fn encode(&self) -> (r: &[u8]) {
        *self
    }
}

impl<const N: usize> Sendable for [u8; N] {
    open spec fn spec_data_size() -> nat {
        N as nat
    }

    open spec fn spec_encoding(&self) -> Seq<u8> {
        self@
    }

    fn data_size() -> (r: usize) {
        N
    }

    fn encode(&self) -> (r: &[u8]) {
        self.as_slice()
    }
}

/// True when no byte of `s` is NUL.
pub open spec fn free_of_nul(s: Seq<u8>) -> bool {
    forall|i: int| 0 <= i < s.len() ==> s[i] != 0u8
}

/// Text sent with a terminating NUL byte.
pub struct TerminatedText {
    /// The text followed by one NUL byte.
    bytes: Vec<u8>,
}

impl TerminatedText {
    #[verifier::type_invariant]
    spec fn inv(self) -> bool {
        &&& self.bytes@.len() >= 1
        &&& self.bytes@.last() == 0u8
        &&& free_of_nul(self.bytes@.drop_last())
    }

    /// The text, without its terminator.
    pub closed spec fn text(&self) -> Seq<u8> {
        self.bytes@.drop_last()
    }

    /// The text of `b`, or `None` when `b` holds a NUL byte.
    pub fn from_bytes(b: &[u8]) -> (r: Option<Self>)
        ensures
            r is Some <==> free_of_nul(b@),
            r matches Some(t) ==> t.text() == b@,
    {
        let mut bytes: Vec<u8> = Vec::new();
        let mut i: usize = 0;
        while i < b.len()
            invariant
                i <= b@.len(),
                bytes@ == b@.subrange(0, i as int),
                free_of_nul(bytes@),
            decreases b@.len() - i,
        {
            if b[i] == 0 {
                return None;
            }
            bytes.push(b[i]);
            i = i + 1;
        }
        assert(bytes@ == b@);
        bytes.push(0);
        assert(bytes@.drop_last() == b@);
        Some(TerminatedText { bytes })
    }

    /// The text of `s`, or `None` when `s` holds a NUL character.
    pub fn from_str(s: &str) -> (r: Option<Self>)
        ensures
            r is Some <==> free_of_nul(s.spec_bytes()),
            r matches Some(t) ==> t.text() == s.spec_bytes(),
    {
        Self::from_bytes(s.as_bytes())
    }

    /// The text, without its terminator.
    pub fn to_bytes(&self) -> (r: Vec<u8>)
        ensures
            r@ == self.text(),
    {
        proof {
            use_type_invariant(self);
        }
        let n: usize = self.bytes.len() - 1;
        let mut out: Vec<u8> = Vec::new();
        let mut i: usize = 0;
        while i < n
            invariant
                n == self.bytes@.len() - 1,
                i <= n,
                out@ == self.bytes@.subrange(0, i as int),
            decreases n - i,
        {
            out.push(self.bytes[i]);
            i = i + 1;
        }
        assert(out@ == self.text());
        out
    }

    /// Reads text out of the first `count` received bytes of `buf`: they must
    /// end in the one NUL byte they hold.
    pub fn decode(buf: &[u8], count: usize) -> (r: Option<Self>)
        ensures
            r is Some <==> {
                &&& 1 <= count <= buf@.len()
                &&& buf@[count - 1] == 0u8
                &&& free_of_nul(buf@.subrange(0, count - 1))
            },
            r matches Some(t) ==> t.text() == buf@.subrange(0, count - 1),
    {
        if count < 1 || count > buf.len() || buf[count - 1] != 0 {
            return None;
        }
        let mut bytes: Vec<u8> = Vec::new();
        let mut i: usize = 0;
        while i < count - 1
            invariant
                1 <= count <= buf@.len(),
                i <= count - 1,
                bytes@ == buf@.subrange(0, i as int),
                free_of_nul(bytes@),
            decreases count - 1 - i,
        {
            if buf[i] == 0 {
                assert(buf@.subrange(0, count - 1)[i as int] == 0u8);
                return None;
            }
            bytes.push(buf[i]);
            i = i + 1;
        }
        bytes.push(0);
        assert(bytes@.drop_last() == buf@.subrange(0, count - 1));
        Some(TerminatedText { bytes })
    }
}

impl Sendable for TerminatedText {
    open spec fn spec_data_size() -> nat {
        DEFAULT_DATA_SIZE as nat
    }

    open spec fn spec_encoding(&self) -> Seq<u8> {
        self.text().push(0u8)
    }

    fn data_size() -> (r: usize) {
        DEFAULT_DATA_SIZE
    }

    fn encode(&self) -> (r: &[u8]) {
        proof {
            use_type_invariant(self);
            assert(self.bytes@ == self.bytes@.drop_last().push(0u8));
        }
        self.bytes.as_slice()
    }
}

} // verus!
