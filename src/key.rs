use vstd::prelude::*;

verus! {

/// Size in bytes of the key container, and the longest password accepted.
pub const KEY_CAPACITY: usize = 32;

/// The key derived from a password: its bytes first, then zeros up to the
/// capacity. This is padding, not a key derivation function.
pub open spec fn padded_key(password: Seq<u8>) -> Seq<u8> {
    Seq::new(KEY_CAPACITY as nat, |i: int| if i < password.len() { password[i] } else { 0u8 })
}

/// Copies the password into a zero-filled key; `None` when the password is
/// longer than the key.
pub fn derive_key(password: &[u8]) -> (r: Option<[u8; 32]>)
    ensures
        r is Some <==> password@.len() <= KEY_CAPACITY,
        r matches Some(k) ==> k@ == padded_key(password@),
{
    if password.len() > KEY_CAPACITY {
        return None;
    }
    let mut key: [u8; 32] = [0u8; 32];
    let mut i: usize = 0;
    while i < password.len()
        invariant
            password@.len() <= KEY_CAPACITY,
            i <= password@.len(),
            key@.len() == KEY_CAPACITY,
            forall|j: int| 0 <= j < i ==> key@[j] == password@[j],
            forall|j: int| i <= j < KEY_CAPACITY ==> key@[j] == 0u8,
        decreases password@.len() - i,
    {
        key[i] = password[i];
        i = i + 1;
    }
    assert(key@ =~= padded_key(password@));
    Some(key)
}

} // verus!
