use vstd::prelude::*;
use vstd::string::*;

verus! {

/// Copies a byte string.
pub fn clone_bytes(b: &Vec<u8>) -> (r: Vec<u8>)
    ensures
        r@ == b@,
{
    let mut r: Vec<u8> = Vec::new();
    let mut i: usize = 0;
    while i < b.len()
        invariant
            i <= b.len(),
            r@ =~= b@.subrange(0, i as int),
        decreases b.len() - i,
    {
        r.push(b[i]);
        i += 1;
    }
    proof {
        assert(r@ =~= b@);
    }
    r
}

/// Compares two byte strings for equality.
pub fn bytes_eq(a: &Vec<u8>, b: &Vec<u8>) -> (r: bool)
    ensures
        r == (a@ == b@),
{
    if a.len() != b.len() {
        proof {
            assert(a@.len() != b@.len());
        }
        return false;
    }
    let mut i: usize = 0;
    while i < a.len()
        invariant
            i <= a.len(),
            a@.len() == b@.len(),
            forall|j: int| 0 <= j < i ==> a@[j] == b@[j],
        decreases a.len() - i,
    {
        if a[i] != b[i] {
            return false;
        }
        i += 1;
    }
    proof {
        assert(a@ =~= b@);
    }
    true
}

/// Appends a byte slice to a byte string.
pub fn push_bytes(dst: &mut Vec<u8>, src: &[u8])
    ensures
        final(dst)@ == old(dst)@ + src@,
{
    let mut i: usize = 0;
    while i < src.len()
        invariant
            i <= src.len(),
            dst@ =~= old(dst)@ + src@.subrange(0, i as int),
        decreases src.len() - i,
    {
        dst.push(src[i]);
        proof {
            assert(dst@ =~= old(dst)@ + src@.subrange(0, i + 1));
        }
        i += 1;
    }
    proof {
        assert(dst@ =~= old(dst)@ + src@);
    }
}

/// Appends the text of a label to a byte string.
pub fn push_str_bytes(dst: &mut Vec<u8>, src: &str)
    ensures
        final(dst)@ == old(dst)@ + src.spec_bytes(),
{
    push_bytes(dst, src.as_bytes());
}

/// Whether one byte string begins with another.
pub fn bytes_starts_with(a: &Vec<u8>, p: &Vec<u8>) -> (r: bool)
    ensures
        r == p@.is_prefix_of(a@),
{
    if p.len() > a.len() {
        proof {
            assert(!p@.is_prefix_of(a@));
        }
        return false;
    }
    let mut i: usize = 0;
    while i < p.len()
        invariant
            i <= p.len(),
            p@.len() <= a@.len(),
            forall|j: int| 0 <= j < i ==> a@[j] == p@[j],
        decreases p.len() - i,
    {
        if a[i] != p[i] {
            proof {
                assert(a@.subrange(0, p@.len() as int)[i as int] != p@[i as int]);
            }
            return false;
        }
        i += 1;
    }
    proof {
        assert(a@.subrange(0, p@.len() as int) =~= p@);
    }
    true
}

/// Builds a message around an entry's name.
pub fn note(prefix: &str, name: &Vec<u8>, suffix: &str) -> (r: Vec<u8>)
    ensures
        r@ == prefix.spec_bytes() + name@ + suffix.spec_bytes(),
{
    let mut m: Vec<u8> = Vec::new();
    push_str_bytes(&mut m, prefix);
    push_bytes(&mut m, name.as_slice());
    push_str_bytes(&mut m, suffix);
    proof {
        assert(Seq::<u8>::empty() + prefix.spec_bytes() =~= prefix.spec_bytes());
    }
    m
}

/// Builds a message that ends with the entry's name.
pub fn note_name(prefix: &str, name: &Vec<u8>) -> (r: Vec<u8>)
    ensures
        r@ == prefix.spec_bytes() + name@,
{
    let mut m: Vec<u8> = Vec::new();
    push_str_bytes(&mut m, prefix);
    push_bytes(&mut m, name.as_slice());
    proof {
        assert(Seq::<u8>::empty() + prefix.spec_bytes() =~= prefix.spec_bytes());
    }
    m
}

/// Builds a message that opens with the entry's name.
pub fn note_after(name: &Vec<u8>, suffix: &str) -> (r: Vec<u8>)
    ensures
        r@ == name@ + suffix.spec_bytes(),
{
    let mut m: Vec<u8> = Vec::new();
    push_bytes(&mut m, name.as_slice());
    push_str_bytes(&mut m, suffix);
    proof {
        assert(Seq::<u8>::empty() + name@ =~= name@);
    }
    m
}

/// Builds a message around an entry's name and what an operating-system
/// call reported.
pub fn note_with(prefix: &str, name: &Vec<u8>, mid: &str, detail: &Vec<u8>) -> (r: Vec<u8>)
    ensures
        r@ == prefix.spec_bytes() + name@ + mid.spec_bytes() + detail@,
{
    let mut m = note(prefix, name, mid);
    push_bytes(&mut m, detail.as_slice());
    m
}

} // verus!
