//! Program-derived addresses: the derivation itself is the host crate's, the
//! rules about which derivation a `seeds` check accepts are stated here.

use crate::address::Address;
use crate::creator::clone_seeds;
use vstd::prelude::*;

verus! {

/// The address that hashing a seed list together with a program id yields, or
/// `None` where the derivation is refused (too many seeds, a seed that is too
/// long, or a hash that lies on the curve).
pub uninterp spec fn program_address(seeds: Seq<Seq<u8>>, program_id: Seq<u8>) -> Option<Seq<u8>>;

/// A seed list followed by a one-byte bump seed.
pub open spec fn with_bump(seeds: Seq<Seq<u8>>, bump: u8) -> Seq<Seq<u8>> {
    seeds.push(seq![bump])
}

/// `bump` is the canonical bump of `seeds` under `program_id`, and `address`
/// the address it derives: the derivation succeeds with `bump` and is refused
/// with every greater bump. Bump zero is never canonical.
pub open spec fn is_canonical(
    seeds: Seq<Seq<u8>>,
    program_id: Seq<u8>,
    address: Seq<u8>,
    bump: u8,
) -> bool {
    &&& bump >= 1
    &&& program_address(with_bump(seeds, bump), program_id) == Some(address)
    &&& forall|b: u8| bump < b ==> (#[trigger] program_address(with_bump(seeds, b), program_id)) is None
}

/// No bump from 255 down to 1 derives an address.
pub open spec fn no_canonical(seeds: Seq<Seq<u8>>, program_id: Seq<u8>) -> bool {
    forall|b: u8| 1 <= b ==> (#[trigger] program_address(with_bump(seeds, b), program_id)) is None
}

/// The bytes of an optional address.
pub open spec fn address_bytes(a: Option<Address>) -> Option<Seq<u8>> {
    match a {
        Some(a) => Some(a@),
        None => None,
    }
}

/// Calls `solana_program::pubkey::Pubkey::create_program_address`. The result
/// is trusted to be a function of the seed bytes and the program id alone;
/// every error of the call is reported as `None`.
#[verifier::external_body]
pub(crate) fn create_program_address(seeds: &Vec<Vec<u8>>, program_id: &Address) -> (r: Option<Address>)
    ensures
        address_bytes(r) == program_address(seeds.deep_view(), program_id@),
{
    let slices: Vec<&[u8]> = seeds.iter().map(|s| s.as_slice()).collect();
    let program = solana_program::pubkey::Pubkey::new_from_array(program_id.bytes);
    match solana_program::pubkey::Pubkey::create_program_address(&slices, &program) {
        Ok(key) => Some(Address { bytes: key.to_bytes() }),
        Err(_) => None,
    }
}

/// Calls `solana_program::pubkey::Pubkey::try_find_program_address`, which
/// tries the bumps 255, 254, .., 1 in that order with the derivation named by
/// `program_address` and returns the first that succeeds.
#[verifier::external_body]
pub(crate) fn try_find_program_address(seeds: &Vec<Vec<u8>>, program_id: &Address) -> (r: Option<(Address, u8)>)
    ensures
        match r {
            Some((address, bump)) => is_canonical(seeds.deep_view(), program_id@, address@, bump),
            None => no_canonical(seeds.deep_view(), program_id@),
        },
{
    let slices: Vec<&[u8]> = seeds.iter().map(|s| s.as_slice()).collect();
    let program = solana_program::pubkey::Pubkey::new_from_array(program_id.bytes);
    match solana_program::pubkey::Pubkey::try_find_program_address(&slices, &program) {
        Some((key, bump)) => Some((Address { bytes: key.to_bytes() }, bump)),
        None => None,
    }
}

/// The canonical derivation of a seed list, if it has one.
pub fn derive_address(seeds: &Vec<Vec<u8>>, program_id: &Address) -> (r: Option<(Address, u8)>)
    ensures
        match r {
            Some((address, bump)) => is_canonical(seeds.deep_view(), program_id@, address@, bump),
            None => no_canonical(seeds.deep_view(), program_id@),
        },
{
    try_find_program_address(seeds, program_id)
}

/// How the bump of a `seeds` check is given when the check runs.
#[derive(Clone, Copy, Debug, PartialEq, Eq)]
pub enum BumpValue {
    /// None is declared: the canonical bump is found and used.
    Canonical,
    /// The declared bump is used as it is.
    Given(u8),
    /// The declared bump must be the canonical one.
    GivenCanonical(u8),
}

/// Whether a `seeds` check accepts the key of an account.
///
/// - With a bump used as given, the seeds and that bump must derive the key.
/// - Without a bump, the key must be the canonical derivation of the seeds.
/// - With a bump that must be canonical, the key must be the canonical
///   derivation and the bump the canonical bump.
pub open spec fn seeds_accept(key: Seq<u8>, program_id: Seq<u8>, seeds: Seq<Seq<u8>>, bump: BumpValue) -> bool {
    match bump {
        BumpValue::Given(b) => program_address(with_bump(seeds, b), program_id) == Some(key),
        BumpValue::Canonical => exists|b: u8| is_canonical(seeds, program_id, key, b),
        BumpValue::GivenCanonical(b) => is_canonical(seeds, program_id, key, b),
    }
}

/// A seed list has at most one canonical derivation.
pub proof fn lemma_canonical_unique(
    seeds: Seq<Seq<u8>>,
    program_id: Seq<u8>,
    address1: Seq<u8>,
    bump1: u8,
    address2: Seq<u8>,
    bump2: u8,
)
    ensures
        is_canonical(seeds, program_id, address1, bump1) && is_canonical(
            seeds,
            program_id,
            address2,
            bump2,
        ) ==> address1 == address2 && bump1 == bump2,
{
}

/// Whether a derivation gave the key.
pub fn derived_is(key: &Address, derived: &Option<Address>) -> (r: bool)
    ensures
        r == (address_bytes(*derived) == Some(key@)),
{
    match derived {
        Some(address) => address.same(key),
        None => false,
    }
}

/// Whether a canonical derivation gave the key and, where a bump is
/// declared, gave that bump.
pub fn canonical_is(key: &Address, found: &Option<(Address, u8)>, declared: Option<u8>) -> (r: bool)
    ensures
        r == match *found {
            Some((address, bump)) => address@ == key@ && (declared matches Some(d) ==> d == bump),
            None => false,
        },
{
    match found {
        Some((address, bump)) => {
            let bump_ok = match declared {
                Some(d) => d == *bump,
                None => true,
            };
            address.same(key) && bump_ok
        },
        None => false,
    }
}

/// A seed list followed by a one-byte bump seed.
pub fn seeds_with_bump(seeds: &Vec<Vec<u8>>, bump: u8) -> (r: Vec<Vec<u8>>)
    ensures
        r.deep_view() == with_bump(seeds.deep_view(), bump),
{
    let mut r = clone_seeds(seeds);
    let last: Vec<u8> = vec![bump];
    assert(last.deep_view() =~= seq![bump]);
    r.push(last);
    assert(r.deep_view() =~= with_bump(seeds.deep_view(), bump));
    r
}

/// Runs a `seeds` check: derives the address as the bump asks and compares
/// it with the key.
pub fn check_seeds(key: &Address, program_id: &Address, seeds: &Vec<Vec<u8>>, bump: BumpValue) -> (r: bool)
    ensures
        r == seeds_accept(key@, program_id@, seeds.deep_view(), bump),
{
    match bump {
        BumpValue::Given(b) => {
            let all = seeds_with_bump(seeds, b);
            let derived = create_program_address(&all, program_id);
            derived_is(key, &derived)
        },
        BumpValue::Canonical => {
            let found = derive_address(seeds, program_id);
            let r = canonical_is(key, &found, None);
            proof {
                match found {
                    Some((address, bump)) => {
                        if r {
                            assert(is_canonical(seeds.deep_view(), program_id@, key@, bump));
                        } else {
                            assert forall|b: u8| !is_canonical(seeds.deep_view(), program_id@, key@, b) by {
                                lemma_canonical_unique(
                                    seeds.deep_view(),
                                    program_id@,
                                    key@,
                                    b,
                                    address@,
                                    bump,
                                );
                            }
                        }
                    },
                    None => {},
                }
            }
            r
        },
        BumpValue::GivenCanonical(b) => {
            let found = derive_address(seeds, program_id);
            let r = canonical_is(key, &found, Some(b));
            proof {
                match found {
                    Some((address, bump)) => {
                        lemma_canonical_unique(seeds.deep_view(), program_id@, key@, b, address@, bump);
                    },
                    None => {},
                }
            }
            r
        },
    }
}

/// The seeds with which a derived address signs the creation of its own
/// account: the seeds of the address followed by the declared bump, or by the
/// canonical bump where none is declared. Without a declared bump there are
/// none where the seeds have no canonical derivation.
pub open spec fn signing_seeds_of(
    seeds: Seq<Seq<u8>>,
    program_id: Seq<u8>,
    bump: Option<u8>,
    signing: Option<Seq<Seq<u8>>>,
) -> bool {
    match bump {
        Some(b) => signing == Some(with_bump(seeds, b)),
        None => match signing {
            Some(all) => exists|address: Seq<u8>, b: u8|
                is_canonical(seeds, program_id, address, b) && all == with_bump(seeds, b),
            None => no_canonical(seeds, program_id),
        },
    }
}

/// Completes the seeds of a derived address by its bump, for signing.
pub fn signing_seeds(seeds: &Vec<Vec<u8>>, program_id: &Address, bump: Option<u8>) -> (r: Option<
    Vec<Vec<u8>>,
>)
    ensures
        signing_seeds_of(seeds.deep_view(), program_id@, bump, r.deep_view()),
{
    match bump {
        Some(b) => Some(seeds_with_bump(seeds, b)),
        None => match derive_address(seeds, program_id) {
            Some((address, b)) => {
                let all = seeds_with_bump(seeds, b);
                assert(is_canonical(seeds.deep_view(), program_id@, address@, b));
                Some(all)
            },
            None => None,
        },
    }
}

/// The seeds of an associated token address: the wallet, the token program
/// and the mint, in that order.
pub open spec fn associated_seeds(wallet: Seq<u8>, token_program: Seq<u8>, mint: Seq<u8>) -> Seq<Seq<u8>> {
    seq![wallet, token_program, mint]
}

/// Whether `key` is the associated token address of a wallet for a mint: the
/// canonical derivation, under the associated-token program, of the wallet,
/// the token program and the mint.
pub open spec fn is_associated_address(
    key: Seq<u8>,
    wallet: Seq<u8>,
    mint: Seq<u8>,
    token_program: Seq<u8>,
    associated_token_program: Seq<u8>,
) -> bool {
    seeds_accept(
        key,
        associated_token_program,
        associated_seeds(wallet, token_program, mint),
        BumpValue::Canonical,
    )
}

fn address_seed(a: &Address) -> (r: Vec<u8>)
    ensures
        r@ == a@,
{
    let mut r: Vec<u8> = Vec::new();
    let mut i: usize = 0;
    while i < 32
        invariant
            i <= 32,
            r.len() == i,
            forall|j: int| 0 <= j < i ==> r[j] == a.bytes@[j],
        decreases 32 - i,
    {
        r.push(a.bytes[i]);
        i += 1;
    }
    assert(r@ =~= a@);
    r
}

/// Runs an `associated_token` check.
pub fn check_associated_token(
    key: &Address,
    wallet: &Address,
    mint: &Address,
    token_program: &Address,
    associated_token_program: &Address,
) -> (r: bool)
    ensures
        r == is_associated_address(key@, wallet@, mint@, token_program@, associated_token_program@),
{
    let mut seeds: Vec<Vec<u8>> = Vec::new();
    let w = address_seed(wallet);
    let t = address_seed(token_program);
    let m = address_seed(mint);
    assert(w.deep_view() =~= wallet@);
    assert(t.deep_view() =~= token_program@);
    assert(m.deep_view() =~= mint@);
    seeds.push(w);
    seeds.push(t);
    seeds.push(m);
    assert(seeds.deep_view() =~= associated_seeds(wallet@, token_program@, mint@));
    check_seeds(key, associated_token_program, &seeds, BumpValue::Canonical)
}

/// The round trip of a derived address: where the canonical derivation of a
/// seed list is `(address, bump)`, a `seeds` check against `address` passes
/// with `bump` declared, in either way of declaring it, and with none
/// declared.
pub proof fn lemma_derived_round_trip(seeds: Seq<Seq<u8>>, program_id: Seq<u8>, address: Seq<u8>, bump: u8)
    requires
        is_canonical(seeds, program_id, address, bump),
    ensures
        seeds_accept(address, program_id, seeds, BumpValue::Given(bump)),
        seeds_accept(address, program_id, seeds, BumpValue::GivenCanonical(bump)),
        seeds_accept(address, program_id, seeds, BumpValue::Canonical),
{
}

/// A bump other than the canonical one is refused: always where the bump
/// must be canonical, and always where it is greater than the canonical
/// bump. A smaller bump that is used as given is accepted only if it derives
/// the very same address as the canonical bump.
pub proof fn lemma_other_bump_refused(
    seeds: Seq<Seq<u8>>,
    program_id: Seq<u8>,
    address: Seq<u8>,
    bump: u8,
    other: u8,
)
    requires
        is_canonical(seeds, program_id, address, bump),
        other != bump,
    ensures
        !seeds_accept(address, program_id, seeds, BumpValue::GivenCanonical(other)),
        other > bump ==> !seeds_accept(address, program_id, seeds, BumpValue::Given(other)),
        seeds_accept(address, program_id, seeds, BumpValue::Given(other)) ==> other < bump
            && program_address(with_bump(seeds, other), program_id) == program_address(
            with_bump(seeds, bump),
            program_id,
        ),
{
    lemma_canonical_unique(seeds, program_id, address, bump, address, other);
}

} // verus!
