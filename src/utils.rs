use vstd::prelude::*;

verus! {

/// Decimal digits, in order of value.
pub open spec fn decimal_digits() -> Seq<char> {
    "0123456789"@
}

/// The characters a request identifier is drawn from.
pub open spec fn id_alphabet() -> Seq<char> {
    "0123456789abcdef"@
}

/// The decimal rendering of `n`, without leading zeros.
pub open spec fn decimal_of(n: nat) -> Seq<char>
    decreases n,
{
    if n < 10 {
        seq![decimal_digits()[n as int]]
    } else {
        decimal_of(n / 10) + seq![decimal_digits()[(n % 10) as int]]
    }
}

/// Renders `n` in decimal.
pub fn decimal(n: u64) -> (r: String)
    ensures
        r@ == decimal_of(n as nat),
    decreases n,
{
    proof {
        reveal_strlit("0123456789");
    }
    let d = (n % 10) as usize;
    let digit = "0123456789".substring_char(d, d + 1);
    if n < 10 {
        let r = String::from_str(digit);
        assert(r@ =~= decimal_of(n as nat));
        r
    } else {
        let mut r = decimal(n / 10);
        r.append(digit);
        assert(r@ =~= decimal_of(n as nat));
        r
    }
}

/// Relies on std's RandomState::new: each new one is keyed afresh.
#[verifier::external_body]
fn fresh_random_state() -> (r: std::collections::hash_map::RandomState) {
    std::collections::hash_map::RandomState::new()
}

/// Relies on BuildHasher::hash_one: under a freshly keyed RandomState the hash
/// serves as a random draw. Nothing is known of the value.
#[verifier::external_body]
fn hash_one_of(s: &std::collections::hash_map::RandomState) -> (r: u64) {
    std::hash::BuildHasher::hash_one(s, 0u8)
}

/// The identifier that a sequence of draws gives: each draw picks, by its
/// remainder modulo the alphabet's size, one character of `id_alphabet`.
pub fn id_from_draws(draws: &Vec<u64>) -> (r: String)
    ensures
        r@.len() == draws@.len(),
        forall|i: int| 0 <= i < draws@.len() ==> r@[i] == id_alphabet()[(draws@[i] % 16) as int],
{
    let mut r = String::new();
    let mut i: usize = 0;
    while i < draws.len()
        invariant
            i <= draws@.len(),
            r@.len() == i,
            forall|j: int| 0 <= j < i ==> r@[j] == id_alphabet()[(draws@[j] % 16) as int],
        decreases draws@.len() - i,
    {
        proof {
            reveal_strlit("0123456789abcdef");
        }
        let k = (draws[i] % 16) as usize;
        let c = "0123456789abcdef".substring_char(k, k + 1);
        let ghost before = r@;
        r.append(c);
        assert forall|j: int| 0 <= j < i + 1 implies r@[j] == id_alphabet()[(draws@[j] % 16) as int] by {
            if j < i {
                assert(r@[j] == before[j]);
            }
        }
        i = i + 1;
    }
    r
}

/// An identifier of `len` characters, each drawn from `id_alphabet` at random.
pub fn random_string(len: usize) -> (r: String)
    ensures
        r@.len() == len,
        forall|i: int| 0 <= i < len ==> id_alphabet().contains(#[trigger] r@[i]),
{
    let mut draws: Vec<u64> = Vec::new();
    let mut i: usize = 0;
    while i < len
        invariant
            i <= len,
            draws@.len() == i,
        decreases len - i,
    {
        let state = fresh_random_state();
        draws.push(hash_one_of(&state));
        i = i + 1;
    }
    let r = id_from_draws(&draws);
    assert forall|i: int| 0 <= i < len implies id_alphabet().contains(#[trigger] r@[i]) by {
        reveal_strlit("0123456789abcdef");
        assert(r@[i] == id_alphabet()[(draws@[i] % 16) as int]);
    }
    r
}

} // verus!
