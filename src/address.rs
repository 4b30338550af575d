//! Program-derived addresses: a namespace tag and identity components are hashed,
//! together with the owning program's id, into a 32-byte address off the ed25519
//! curve, with the bump seed that moved it there.

use anchor_lang::prelude::Pubkey;
use vstd::prelude::*;

verus! {

/// A 32-byte account address (a public key or a program-derived address).
#[derive(Clone, Copy, Debug)]
pub struct Address {
    pub bytes: [u8; 32],
}

impl View for Address {
    type V = Seq<u8>;

    open spec fn view(&self) -> Seq<u8> {
        self.bytes@
    }
}

impl Address {
    /// The address whose bytes are `bytes`.
    pub fn new(bytes: [u8; 32]) -> (r: Address)
        ensures
            r.bytes == bytes,
    {
        Address { bytes }
    }

    /// The address's bytes, in order, as a vector.
    pub fn to_vec(&self) -> (r: Vec<u8>)
        ensures
            r@ == self@,
    {
        let mut r: Vec<u8> = Vec::new();
        let mut i: usize = 0;
        while i < 32
            invariant
                i <= 32,
                self@.len() == 32,
                r@ == self@.subrange(0, i as int),
            decreases 32 - i,
        {
            r.push(self.bytes[i]);
            i = i + 1;
        }
        assert(r@ =~= self@);
        r
    }
}

impl PartialEq for Address {
    fn eq(&self, other: &Address) -> (r: bool) {
        let mut i: usize = 0;
        while i < 32
            invariant
                i <= 32,
                self@.len() == 32,
                other@.len() == 32,
                forall|j: int| 0 <= j < i ==> self@[j] == other@[j],
            decreases 32 - i,
        {
            if self.bytes[i] != other.bytes[i] {
                return false;
            }
            i = i + 1;
        }
        assert(self@ =~= other@);
        true
    }
}

impl vstd::std_specs::cmp::PartialEqSpecImpl for Address {
    open spec fn obeys_eq_spec() -> bool {
        true
    }

    open spec fn eq_spec(&self, other: &Address) -> bool {
        self@ == other@
    }
}

/// The fixed tag that opens the seeds of each kind of derived address.
#[derive(Clone, Copy, Debug, PartialEq, Eq, Structural)]
pub enum Namespace {
    Global,
    Vault,
    Message,
}

impl Namespace {
    /// The ASCII bytes of the tag: `global`, `vault` or `message`.
    pub open spec fn tag_spec(self) -> Seq<u8> {
        match self {
            Namespace::Global => seq![103u8, 108u8, 111u8, 98u8, 97u8, 108u8],
            Namespace::Vault => seq![118u8, 97u8, 117u8, 108u8, 116u8],
            Namespace::Message => seq![109u8, 101u8, 115u8, 115u8, 97u8, 103u8, 101u8],
        }
    }

    pub fn tag(&self) -> (r: Vec<u8>)
        ensures
            r@ == self.tag_spec(),
    {
        let r = match self {
            Namespace::Global => vec![103u8, 108u8, 111u8, 98u8, 97u8, 108u8],
            Namespace::Vault => vec![118u8, 97u8, 117u8, 108u8, 116u8],
            Namespace::Message => vec![109u8, 101u8, 115u8, 115u8, 97u8, 103u8, 101u8],
        };
        assert(r@ =~= self.tag_spec());
        r
    }
}

/// The program-derived address and bump seed for `seeds` under the program whose
/// id has bytes `program_id`, or `None` where no bump seed gives one.
pub uninterp spec fn program_address(seeds: Seq<Seq<u8>>, program_id: Seq<u8>) -> Option<(Seq<u8>, u8)>;

/// What a derivation result says of the address, as plain bytes.
pub open spec fn derivation_view(r: Option<(Address, u8)>) -> Option<(Seq<u8>, u8)> {
    match r {
        Some((a, bump)) => Some((a@, bump)),
        None => None,
    }
}

/// The byte sequences of `seeds`, in order.
pub open spec fn seeds_view(seeds: Seq<Vec<u8>>) -> Seq<Seq<u8>> {
    seeds.map_values(|s: Vec<u8>| s@)
}

/// Relies on `Pubkey::try_find_program_address` (solana-program, re-exported by
/// anchor-lang): its result depends on the seeds and the program id alone.
#[verifier::external_body]
fn try_find_program_address(seeds: &Vec<Vec<u8>>, program_id: &Address) -> (r: Option<(Address, u8)>)
    ensures
        derivation_view(r) == program_address(seeds_view(seeds@), program_id@),
{
    let slices: Vec<&[u8]> = seeds.iter().map(|s| s.as_slice()).collect();
    match Pubkey::try_find_program_address(&slices, &Pubkey::new_from_array(program_id.bytes)) {
        Some((key, bump)) => Some((Address { bytes: key.to_bytes() }, bump)),
        None => None,
    }
}

/// The seeds of a derivation: the namespace tag, then the components in order.
pub open spec fn derivation_seeds(namespace: Namespace, components: Seq<Seq<u8>>) -> Seq<Seq<u8>> {
    seq![namespace.tag_spec()] + components
}

/// The address derived from `namespace` and `components` under `program_id`.
pub open spec fn derived(namespace: Namespace, components: Seq<Seq<u8>>, program_id: Seq<u8>) -> Option<(Seq<u8>, u8)> {
    program_address(derivation_seeds(namespace, components), program_id)
}

/// Whether `address` is the address derived from `namespace` and `components`.
pub open spec fn is_derived(namespace: Namespace, components: Seq<Seq<u8>>, program_id: Seq<u8>, address: Seq<u8>) -> bool {
    match derived(namespace, components, program_id) {
        Some((a, _)) => a == address,
        None => false,
    }
}

/// Derives the address and bump seed of `components` in `namespace` under the
/// program `program_id`.
pub fn derive(namespace: Namespace, components: &Vec<Vec<u8>>, program_id: &Address) -> (r: Option<(Address, u8)>)
    ensures
        derivation_view(r) == derived(namespace, seeds_view(components@), program_id@),
{
    let mut seeds: Vec<Vec<u8>> = Vec::new();
    seeds.push(namespace.tag());
    let mut i: usize = 0;
    while i < components.len()
        invariant
            i <= components@.len(),
            seeds@.len() == i + 1,
            seeds@[0]@ == namespace.tag_spec(),
            forall|j: int| 0 <= j < i ==> #[trigger] seeds@[j + 1]@ == components@[j]@,
        decreases components@.len() - i,
    {
        let c = components[i].clone();
        assert(c@ == components@[i as int]@);
        seeds.push(c);
        i = i + 1;
    }
    let ghost want = derivation_seeds(namespace, seeds_view(components@));
    assert forall|j: int| 0 <= j < seeds@.len() implies #[trigger] seeds_view(seeds@)[j] == want[j] by {
        if j > 0 {
            assert(seeds@[(j - 1) + 1]@ == components@[j - 1]@);
        }
    }
    assert(seeds_view(seeds@) =~= want);
    try_find_program_address(&seeds, program_id)
}

/// Two derivations from the same namespace, components and program give the same
/// address and bump seed.
pub proof fn lemma_derive_deterministic(
    namespace: Namespace,
    components: Seq<Seq<u8>>,
    program_id: Seq<u8>,
    r1: Option<(Address, u8)>,
    r2: Option<(Address, u8)>,
)
    requires
        derivation_view(r1) == derived(namespace, components, program_id),
        derivation_view(r2) == derived(namespace, components, program_id),
    ensures
        derivation_view(r1) == derivation_view(r2),
{
}

/// The eight bytes of `n`, least significant first.
pub open spec fn le_bytes(n: u64) -> Seq<u8> {
    seq![
        (n & 0xff) as u8,
        ((n >> 8u64) & 0xff) as u8,
        ((n >> 16u64) & 0xff) as u8,
        ((n >> 24u64) & 0xff) as u8,
        ((n >> 32u64) & 0xff) as u8,
        ((n >> 40u64) & 0xff) as u8,
        ((n >> 48u64) & 0xff) as u8,
        ((n >> 56u64) & 0xff) as u8,
    ]
}

pub fn to_le_bytes(n: u64) -> (r: Vec<u8>)
    ensures
        r@ == le_bytes(n),
{
    let r = vec![
        (n & 0xff) as u8,
        ((n >> 8u64) & 0xff) as u8,
        ((n >> 16u64) & 0xff) as u8,
        ((n >> 24u64) & 0xff) as u8,
        ((n >> 32u64) & 0xff) as u8,
        ((n >> 40u64) & 0xff) as u8,
        ((n >> 48u64) & 0xff) as u8,
        ((n >> 56u64) & 0xff) as u8,
    ];
    assert(r@ =~= le_bytes(n));
    r
}

} // verus!
