//! Cipher suites, identified by the number that TLS gives them.
use vstd::prelude::*;

verus! {

/// A TLS cipher suite, as the framework's `SSLCipherSuite` numbers it.
#[derive(Clone, Copy, Debug, PartialEq, Eq, Structural)]
pub struct CipherSuite {
    raw: u32,
}

impl View for CipherSuite {
    type V = u32;

    /// The suite's number.
    closed spec fn view(&self) -> u32 {
        self.raw
    }
}

impl CipherSuite {
    /// The suite with the given number.
    pub fn from_raw(raw: u32) -> (c: CipherSuite)
        ensures
            c@ == raw,
    {
        CipherSuite { raw }
    }

    /// The suite's number.
    pub fn to_raw(&self) -> (raw: u32)
        ensures
            raw == self@,
    {
        self.raw
    }
}

/// The numbers of a list of suites, in order.
pub open spec fn raw_ciphers(ciphers: Seq<CipherSuite>) -> Seq<u32> {
    ciphers.map_values(|c: CipherSuite| c@)
}

/// Suites for a list of numbers that the framework filled in, in order.
pub fn ciphers_from_raw(raws: &[u32]) -> (ciphers: Vec<CipherSuite>)
    ensures
        raw_ciphers(ciphers@) == raws@,
{
    let mut ciphers: Vec<CipherSuite> = Vec::new();
    let mut i: usize = 0;
    while i < raws.len()
        invariant
            i <= raws.len(),
            ciphers@.len() == i,
            forall|j: int| 0 <= j < i ==> (#[trigger] ciphers@[j])@ == raws@[j],
        decreases raws.len() - i,
    {
        ciphers.push(CipherSuite::from_raw(raws[i]));
        i = i + 1;
    }
    assert(raw_ciphers(ciphers@) =~= raws@);
    ciphers
}

/// The numbers of a list of suites, in order, as the framework takes them.
pub fn ciphers_to_raw(ciphers: &[CipherSuite]) -> (raws: Vec<u32>)
    ensures
        raws@ == raw_ciphers(ciphers@),
{
    let mut raws: Vec<u32> = Vec::new();
    let mut i: usize = 0;
    while i < ciphers.len()
        invariant
            i <= ciphers.len(),
            raws@.len() == i,
            forall|j: int| 0 <= j < i ==> #[trigger] raws@[j] == ciphers@[j]@,
        decreases ciphers.len() - i,
    {
        raws.push(ciphers[i].to_raw());
        i = i + 1;
    }
    assert(raws@ =~= raw_ciphers(ciphers@));
    raws
}

/// Turning numbers into suites and back gives the numbers again, and a
/// suite is determined by its number: a list of suites survives the round
/// trip through the framework's representation.
pub proof fn lemma_cipher_roundtrip(raws: Seq<u32>, ciphers: Seq<CipherSuite>)
    requires
        raw_ciphers(ciphers) == raws,
    ensures
        forall|other: Seq<CipherSuite>| raw_ciphers(other) == raws ==> other == ciphers,
{
    assert forall|other: Seq<CipherSuite>| raw_ciphers(other) == raws implies other == ciphers by {
        assert(raw_ciphers(other).len() == other.len());
        assert(raw_ciphers(ciphers).len() == ciphers.len());
        assert forall|j: int| 0 <= j < other.len() implies other[j] == ciphers[j] by {
            assert(raw_ciphers(other)[j] == raw_ciphers(ciphers)[j]);
            lemma_cipher_view_injective(other[j], ciphers[j]);
        }
        assert(other =~= ciphers);
    }
}

/// Two suites with the same number are the same suite.
pub proof fn lemma_cipher_view_injective(a: CipherSuite, b: CipherSuite)
    ensures
        a@ == b@ ==> a == b,
{
}

} // verus!
