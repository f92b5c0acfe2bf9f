//! Addresses of aggregates: a flavor, a 256-bit name, and a numeric tag.
//! The address also round-trips through a byte-stable textual encoding:
//! a fixed byte layout of its own (flavor code, name bytes, little-endian
//! tag), carried as text by z-base-32 through the multibase crate.

use vstd::prelude::*;

use crate::errors::Error;
use crate::types::XorName;

verus! {

broadcast use vstd::array::group_array_axioms;

/// One of the four flavor combinations an aggregate can have.
#[derive(Clone, Copy, Eq, PartialEq, Structural, Ord, PartialOrd, Hash, Debug)]
pub enum Kind {
    PubSeq,
    PubUnseq,
    UnpubSeq,
    UnpubUnseq,
}

impl Kind {
    /// Whether this flavor uses the public permission policy.
    pub fn is_pub(self) -> (r: bool)
        ensures
            r == (self == Kind::PubSeq || self == Kind::PubUnseq),
    {
        self == Kind::PubSeq || self == Kind::PubUnseq
    }

    /// Whether this flavor uses the private permission policy.
    pub fn is_unpub(self) -> (r: bool)
        ensures
            r == !(self == Kind::PubSeq || self == Kind::PubUnseq),
    {
        !self.is_pub()
    }

    /// Whether this flavor uses the counted append discipline.
    pub fn is_seq(self) -> (r: bool)
        ensures
            r == (self == Kind::PubSeq || self == Kind::UnpubSeq),
    {
        self == Kind::PubSeq || self == Kind::UnpubSeq
    }

    /// Whether this flavor uses the uncounted append discipline.
    pub fn is_unseq(self) -> (r: bool)
        ensures
            r == !(self == Kind::PubSeq || self == Kind::UnpubSeq),
    {
        !self.is_seq()
    }
}

/// The address of an aggregate: its flavor, name and tag.
#[derive(Clone, Copy, Eq, PartialEq, Ord, PartialOrd, Hash, Debug)]
pub enum Address {
    PubSeq { name: XorName, tag: u64 },
    PubUnseq { name: XorName, tag: u64 },
    UnpubSeq { name: XorName, tag: u64 },
    UnpubUnseq { name: XorName, tag: u64 },
}

impl Address {
    /// The flavor this address carries.
    pub open spec fn spec_kind(self) -> Kind {
        match self {
            Address::PubSeq { .. } => Kind::PubSeq,
            Address::PubUnseq { .. } => Kind::PubUnseq,
            Address::UnpubSeq { .. } => Kind::UnpubSeq,
            Address::UnpubUnseq { .. } => Kind::UnpubUnseq,
        }
    }

    /// The name this address carries.
    pub open spec fn spec_name(self) -> XorName {
        match self {
            Address::PubSeq { name, .. } => name,
            Address::PubUnseq { name, .. } => name,
            Address::UnpubSeq { name, .. } => name,
            Address::UnpubUnseq { name, .. } => name,
        }
    }

    /// The tag this address carries.
    pub open spec fn spec_tag(self) -> u64 {
        match self {
            Address::PubSeq { tag, .. } => tag,
            Address::PubUnseq { tag, .. } => tag,
            Address::UnpubSeq { tag, .. } => tag,
            Address::UnpubUnseq { tag, .. } => tag,
        }
    }

    /// The address a flavor, name and tag assemble to.
    pub open spec fn spec_from_kind(kind: Kind, name: XorName, tag: u64) -> Address {
        match kind {
            Kind::PubSeq => Address::PubSeq { name, tag },
            Kind::PubUnseq => Address::PubUnseq { name, tag },
            Kind::UnpubSeq => Address::UnpubSeq { name, tag },
            Kind::UnpubUnseq => Address::UnpubUnseq { name, tag },
        }
    }

    /// Builds the address with the given flavor, name and tag.
    pub fn from_kind(kind: Kind, name: XorName, tag: u64) -> (r: Self)
        ensures
            r == Address::spec_from_kind(kind, name, tag),
            r.spec_kind() == kind,
            r.spec_name() == name,
            r.spec_tag() == tag,
    {
        match kind {
            Kind::PubSeq => Address::PubSeq { name, tag },
            Kind::PubUnseq => Address::PubUnseq { name, tag },
            Kind::UnpubSeq => Address::UnpubSeq { name, tag },
            Kind::UnpubUnseq => Address::UnpubUnseq { name, tag },
        }
    }

    /// The flavor of this address.
    pub fn kind(&self) -> (r: Kind)
        ensures
            r == self.spec_kind(),
    {
        match self {
            Address::PubSeq { .. } => Kind::PubSeq,
            Address::PubUnseq { .. } => Kind::PubUnseq,
            Address::UnpubSeq { .. } => Kind::UnpubSeq,
            Address::UnpubUnseq { .. } => Kind::UnpubUnseq,
        }
    }

    /// The name of this address.
    pub fn name(&self) -> (r: &XorName)
        ensures
            *r == self.spec_name(),
    {
        match self {
            Address::PubSeq { name, .. } => name,
            Address::PubUnseq { name, .. } => name,
            Address::UnpubSeq { name, .. } => name,
            Address::UnpubUnseq { name, .. } => name,
        }
    }

    /// The tag of this address.
    pub fn tag(&self) -> (r: u64)
        ensures
            r == self.spec_tag(),
    {
        match self {
            Address::PubSeq { tag, .. } => *tag,
            Address::PubUnseq { tag, .. } => *tag,
            Address::UnpubSeq { tag, .. } => *tag,
            Address::UnpubUnseq { tag, .. } => *tag,
        }
    }

    /// Whether this address names a public-flavor aggregate.
    pub fn is_pub(&self) -> (r: bool)
        ensures
            r == (self.spec_kind() == Kind::PubSeq || self.spec_kind() == Kind::PubUnseq),
    {
        self.kind().is_pub()
    }

    /// Whether this address names a private-flavor aggregate.
    pub fn is_unpub(&self) -> (r: bool)
        ensures
            r == !(self.spec_kind() == Kind::PubSeq || self.spec_kind() == Kind::PubUnseq),
    {
        self.kind().is_unpub()
    }

    /// Whether this address names a counted aggregate.
    pub fn is_seq(&self) -> (r: bool)
        ensures
            r == (self.spec_kind() == Kind::PubSeq || self.spec_kind() == Kind::UnpubSeq),
    {
        self.kind().is_seq()
    }

    /// Whether this address names an uncounted aggregate.
    pub fn is_unseq(&self) -> (r: bool)
        ensures
            r == !(self.spec_kind() == Kind::PubSeq || self.spec_kind() == Kind::UnpubSeq),
    {
        self.kind().is_unseq()
    }

    /// The address serialized to its byte layout and encoded in z-base-32.
    pub fn encode_to_zbase32(&self) -> (r: String)
        ensures
            r@ == spec_zbase32(spec_address_bytes(*self)),
    {
        let bytes = address_to_bytes(self);
        multibase_encode_z(&bytes)
    }

    /// Recovers an address from its z-base-32 encoding: on any text that
    /// `encode_to_zbase32` produced, the original address comes back.
    pub fn decode_from_zbase32(encoded: &str) -> (r: Result<Address, Error>)
        ensures
            forall|a: Address| encoded@ == spec_zbase32(spec_address_bytes(a)) ==> r == Ok::<Address, Error>(a),
    {
        match multibase_decode_z(encoded) {
            Ok(bytes) => parse_address(&bytes),
            Err(e) => Err(e),
        }
    }
}

/// The byte the layout assigns to each flavor.
pub open spec fn spec_kind_code(kind: Kind) -> u8 {
    match kind {
        Kind::PubSeq => 0,
        Kind::PubUnseq => 1,
        Kind::UnpubSeq => 2,
        Kind::UnpubUnseq => 3,
    }
}

/// The little-endian byte string of length `n` for the value `v`.
pub open spec fn spec_le_bytes(v: nat, n: nat) -> Seq<u8>
    decreases n,
{
    if n == 0 {
        Seq::empty()
    } else {
        seq![(v % 256) as u8] + spec_le_bytes(v / 256, (n - 1) as nat)
    }
}

/// The value a little-endian byte string denotes.
pub open spec fn spec_le_val(s: Seq<u8>) -> nat
    decreases s.len(),
{
    if s.len() == 0 {
        0
    } else {
        s[0] as nat + 256 * spec_le_val(s.drop_first())
    }
}

/// Powers of 256: the exclusive upper bound of `n` little-endian bytes.
pub open spec fn pow256(n: nat) -> nat
    decreases n,
{
    if n == 0 {
        1
    } else {
        256 * pow256((n - 1) as nat)
    }
}

/// A little-endian byte string always has the requested length.
pub proof fn lemma_le_bytes_len(v: nat, n: nat)
    ensures
        spec_le_bytes(v, n).len() == n,
    decreases n,
{
    if n > 0 {
        lemma_le_bytes_len(v / 256, (n - 1) as nat);
    }
}

/// Reading back the little-endian bytes of a value below `pow256(n)`
/// recovers the value.
pub proof fn lemma_le_roundtrip(v: nat, n: nat)
    requires
        v < pow256(n),
    ensures
        spec_le_val(spec_le_bytes(v, n)) == v,
    decreases n,
{
    if n > 0 {
        assert(v / 256 < pow256((n - 1) as nat)) by (nonlinear_arith)
            requires
                v < 256 * pow256((n - 1) as nat),
        ;
        lemma_le_roundtrip(v / 256, (n - 1) as nat);
        let s = spec_le_bytes(v, n);
        assert(s.drop_first() =~= spec_le_bytes(v / 256, (n - 1) as nat));
        assert(s[0] == (v % 256) as u8);
        assert(v % 256 + 256 * (v / 256) == v) by (nonlinear_arith);
    }
}

/// The byte layout of an address: one flavor byte, the 32 name bytes, then
/// the tag in eight little-endian bytes.
pub open spec fn spec_address_bytes(a: Address) -> Seq<u8> {
    seq![spec_kind_code(a.spec_kind())] + a.spec_name().0@ + spec_le_bytes(a.spec_tag() as nat, 8)
}

/// Serializes an address into its byte layout.
pub fn address_to_bytes(a: &Address) -> (r: Vec<u8>)
    ensures
        r@ == spec_address_bytes(*a),
{
    let mut out: Vec<u8> = Vec::new();
    let kind = a.kind();
    out.push(match kind {
        Kind::PubSeq => 0,
        Kind::PubUnseq => 1,
        Kind::UnpubSeq => 2,
        Kind::UnpubUnseq => 3,
    });
    let name = a.name();
    for i in 0..32
        invariant
            out@ == seq![spec_kind_code(a.spec_kind())] + a.spec_name().0@.subrange(0, i as int),
            *name == a.spec_name(),
    {
        out.push(name.0[i]);
        assert(out@ =~= seq![spec_kind_code(a.spec_kind())]
            + a.spec_name().0@.subrange(0, i + 1));
    }
    assert(a.spec_name().0@.subrange(0, 32) =~= a.spec_name().0@);
    push_le8(&mut out, a.tag());
    assert(out@ =~= spec_address_bytes(*a));
    out
}

/// Appends the eight little-endian tag bytes.
fn push_le8(out: &mut Vec<u8>, v: u64)
    ensures
        final(out)@ == old(out)@ + spec_le_bytes(v as nat, 8),
{
    let mut t = v;
    for i in 0..8usize
        invariant
            out@ + spec_le_bytes(t as nat, (8 - i) as nat)
                == old(out)@ + spec_le_bytes(v as nat, 8),
    {
        let b = (t % 256) as u8;
        let ghost pre = out@;
        let ghost tpre = t as nat;
        out.push(b);
        t = t / 256;
        proof {
            assert(spec_le_bytes(tpre, (8 - i) as nat)
                == seq![(tpre % 256) as u8] + spec_le_bytes(tpre / 256, (8 - i - 1) as nat));
            assert(out@ + spec_le_bytes(t as nat, (8 - (i + 1)) as nat)
                =~= pre + spec_le_bytes(tpre, (8 - i) as nat));
        }
    }
    assert(out@ + spec_le_bytes(t as nat, 0) =~= out@);
}

/// Reads the eight little-endian bytes starting at `start` back into a value.
fn read_le8(bytes: &Vec<u8>, start: usize) -> (r: u64)
    requires
        start + 8 <= bytes@.len(),
    ensures
        r as nat == spec_le_val(bytes@.subrange(start as int, start as int + 8)),
{
    proof {
        lemma_pow256_bounds();
    }
    let n = bytes.len();
    let mut v: u64 = 0;
    let mut i: usize = 8;
    while i > 0
        invariant
            i <= 8,
            n == bytes@.len(),
            start + 8 <= n,
            v as nat == spec_le_val(bytes@.subrange(start as int + i, start as int + 8)),
            (v as nat) < pow256((8 - i) as nat),
        decreases i,
    {
        i = i - 1;
        let b = bytes[start + i];
        proof {
            lemma_pow256_bounds();
            lemma_pow256_increases((8 - (i + 1)) as nat, 7);
            assert((v as nat) * 256 + 255 < pow256(8)) by (nonlinear_arith)
                requires
                    (v as nat) < pow256(7),
                    pow256(8) == 256 * pow256(7),
            ;
        }
        let next = v * 256 + b as u64;
        proof {
            let s = bytes@.subrange(start as int + i, start as int + 8);
            assert(s.drop_first() =~= bytes@.subrange(start as int + i + 1, start as int + 8));
            assert(s[0] == bytes@[start as int + i]);
            assert((next as nat) < pow256((8 - i) as nat)) by (nonlinear_arith)
                requires
                    next as nat == (v as nat) * 256 + (b as nat),
                    (b as nat) < 256,
                    (v as nat) < pow256((8 - (i + 1)) as nat),
                    pow256((8 - i) as nat) == 256 * pow256((8 - (i + 1)) as nat),
            ;
        }
        v = next;
    }
    v
}

/// `pow256` grows with its argument.
proof fn lemma_pow256_increases(m: nat, n: nat)
    requires
        m <= n,
    ensures
        pow256(m) <= pow256(n),
    decreases n,
{
    if m < n {
        lemma_pow256_increases(m, (n - 1) as nat);
        assert(pow256(n) == 256 * pow256((n - 1) as nat));
        assert(pow256((n - 1) as nat) <= 256 * pow256((n - 1) as nat)) by (nonlinear_arith)
            requires
                pow256((n - 1) as nat) >= 0,
        ;
    }
}

/// The concrete powers of 256 the codec relies on.
proof fn lemma_pow256_bounds()
    ensures
        pow256(7) == 0x100000000000000,
        pow256(8) == 0x10000000000000000,
{
    reveal_with_fuel(pow256, 10);
}

/// Parses the byte layout back into an address: on the bytes any address
/// serializes to, that address comes back.
pub fn parse_address(bytes: &Vec<u8>) -> (r: Result<Address, Error>)
    ensures
        forall|a: Address| bytes@ == spec_address_bytes(a) ==> r == Ok::<Address, Error>(a),
{
    proof {
        assert forall|a: Address| spec_address_bytes(a).len() == 41 by {
            lemma_le_bytes_len(a.spec_tag() as nat, 8);
        }
    }
    if bytes.len() != 41 {
        return Err(Error::FailedToParse);
    }
    let kind = match bytes[0] {
        0 => Kind::PubSeq,
        1 => Kind::PubUnseq,
        2 => Kind::UnpubSeq,
        3 => Kind::UnpubUnseq,
        _ => { return Err(Error::FailedToParse) },
    };
    let mut name = [0u8; 32];
    for i in 0..32
        invariant
            bytes@.len() == 41,
            forall|j: int| 0 <= j < i ==> name@[j] == bytes@[1 + j],
    {
        name[i] = bytes[1 + i];
    }
    let tag = read_le8(bytes, 33);
    let addr = Address::from_kind(kind, XorName(name), tag);
    proof {
        assert forall|a: Address| bytes@ == spec_address_bytes(a) implies addr == a by {
            lemma_le_bytes_len(a.spec_tag() as nat, 8);
            assert(bytes@[0] == spec_kind_code(a.spec_kind()));
            assert(kind == a.spec_kind());
            assert forall|j: int| 0 <= j < 32 implies name@[j] == a.spec_name().0@[j] by {
                assert(bytes@[1 + j] == a.spec_name().0@[j]);
            }
            assert(name =~= a.spec_name().0);
            assert(bytes@.subrange(33, 41) =~= spec_le_bytes(a.spec_tag() as nat, 8));
            lemma_pow256_bounds();
            lemma_le_roundtrip(a.spec_tag() as nat, 8);
            assert(tag == a.spec_tag());
            assert(Address::spec_from_kind(a.spec_kind(), a.spec_name(), a.spec_tag()) == a);
        }
    }
    Ok(addr)
}

/// The z-base-32 text multibase produces for a byte string. Named rather
/// than spelled out: the alphabet and bit regrouping live in the multibase
/// crate, and the contracts only need the text to be a pure function of the
/// bytes that decoding inverts.
pub uninterp spec fn spec_zbase32(bytes: Seq<u8>) -> Seq<char>;

/// Relies on multibase::encode with Base32Z: the returned text depends on
/// the input bytes alone.
#[verifier::external_body]
fn multibase_encode_z(bytes: &Vec<u8>) -> (r: String)
    ensures
        r@ == spec_zbase32(bytes@),
{
    multibase::encode(multibase::Base::Base32Z, bytes.as_slice())
}

/// Relies on multibase::decode, which inverts multibase::encode: on any
/// text that the Base32Z encoder produced, the original bytes come back.
#[verifier::external_body]
fn multibase_decode_z(encoded: &str) -> (r: Result<Vec<u8>, Error>)
    ensures
        r is Err ==> (forall|b: Seq<u8>| encoded@ != spec_zbase32(b)),
        r matches Ok(v) ==> (forall|b: Seq<u8>| encoded@ == spec_zbase32(b) ==> v@ == b),
{
    match multibase::decode(encoded) {
        Ok((multibase::Base::Base32Z, bytes)) => Ok(bytes),
        Ok(_) => Err(Error::FailedToParse),
        Err(_) => Err(Error::FailedToParse),
    }
}

} // verus!
