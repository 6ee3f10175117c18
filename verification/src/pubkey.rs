use vstd::prelude::*;

verus! {

/// A 32-byte account address.
#[derive(Clone, Copy, Debug, Hash)]
pub struct Pubkey {
    pub bytes: [u8; 32],
}

impl View for Pubkey {
    type V = Seq<u8>;

    open spec fn view(&self) -> Seq<u8> {
        self.bytes@
    }
}

/// Byte-wise equality of two 32-byte arrays.
pub fn bytes32_eq(a: &[u8; 32], b: &[u8; 32]) -> (r: bool)
    ensures
        r == (a@ == b@),
{
    let mut i: usize = 0;
    while i < 32
        invariant
            0 <= i <= 32,
            a@.len() == 32,
            b@.len() == 32,
            forall|j: int| 0 <= j < i ==> a@[j] == b@[j],
        decreases 32 - i,
    {
        if a[i] != b[i] {
            return false;
        }
        i = i + 1;
    }
    assert(a@ =~= b@);
    true
}

/// The all-zero address, which marks an unused slot.
pub open spec fn default_key() -> Seq<u8> {
    Seq::new(32, |i: int| 0u8)
}

impl Pubkey {
    pub fn new_from_array(bytes: [u8; 32]) -> (key: Self)
        ensures
            key@ == bytes@,
    {
        Pubkey { bytes }
    }

    pub fn to_bytes(&self) -> (bytes: [u8; 32])
        ensures
            bytes@ == self@,
    {
        self.bytes
    }

    /// The 32 bytes of the address, as a vector.
    pub(crate) fn to_byte_vec(&self) -> (v: Vec<u8>)
        ensures
            v@ == self@,
    {
        let mut v: Vec<u8> = Vec::new();
        let mut i: usize = 0;
        while i < 32
            invariant
                i <= 32,
                self@.len() == 32,
                v@ == self@.subrange(0, i as int),
            decreases 32 - i,
        {
            v.push(self.bytes[i]);
            i = i + 1;
            assert(v@ =~= self@.subrange(0, i as int));
        }
        assert(self@.subrange(0, 32) =~= self@);
        v
    }

    /// The all-zero address.
    pub fn zeroed() -> (key: Self)
        ensures
            key@ == default_key(),
    {
        let key = Pubkey { bytes: [0u8; 32] };
        assert(key@ =~= default_key());
        key
    }

    /// Byte-wise equality of two addresses.
    pub fn same_as(&self, other: &Pubkey) -> (r: bool)
        ensures
            r == (self@ == other@),
    {
        bytes32_eq(&self.bytes, &other.bytes)
    }

    pub fn is_default(&self) -> (r: bool)
        ensures
            r == (self@ == default_key()),
    {
        let z = Pubkey::zeroed();
        self.same_as(&z)
    }
}

impl Default for Pubkey {
    fn default() -> (key: Self)
        ensures
            key@ == default_key(),
    {
        Pubkey::zeroed()
    }
}

impl PartialEq for Pubkey {
    fn eq(&self, other: &Self) -> (r: bool) {
        self.same_as(other)
    }
}

impl Eq for Pubkey {}

impl vstd::std_specs::cmp::PartialEqSpecImpl for Pubkey {
    open spec fn obeys_eq_spec() -> bool {
        true
    }

    open spec fn eq_spec(&self, other: &Pubkey) -> bool {
        self@ == other@
    }
}

} // verus!
