use vstd::prelude::*;

verus! {

/// The status text, as bytes, that lets a student claim funds: "Approved".
pub open spec fn approved_status() -> Seq<u8> {
    seq![65u8, 112u8, 112u8, 114u8, 111u8, 118u8, 101u8, 100u8]
}

/// The bytes of the status text "Approved".
pub fn approved_status_bytes() -> (r: Vec<u8>)
    ensures
        r@ == approved_status(),
{
    let mut r: Vec<u8> = Vec::new();
    r.push(65u8);
    r.push(112u8);
    r.push(112u8);
    r.push(114u8);
    r.push(111u8);
    r.push(118u8);
    r.push(101u8);
    r.push(100u8);
    assert(r@ =~= approved_status());
    r
}

/// Whether two texts hold the same bytes.
pub fn same_text(a: &Vec<u8>, b: &Vec<u8>) -> (r: bool)
    ensures
        r == (a@ == b@),
{
    if a.len() != b.len() {
        return false;
    }
    let mut i: usize = 0;
    while i < a.len()
        invariant
            a.len() == b.len(),
            i <= a.len(),
            forall|j: int| 0 <= j < i ==> a@[j] == b@[j],
        decreases a.len() - i,
    {
        if a[i] != b[i] {
            return false;
        }
        i = i + 1;
    }
    assert(a@ =~= b@);
    true
}

/// Whether a status text is "Approved".
pub fn is_approved(status: &Vec<u8>) -> (r: bool)
    ensures
        r == (status@ == approved_status()),
{
    let approved = approved_status_bytes();
    same_text(status, &approved)
}

} // verus!
