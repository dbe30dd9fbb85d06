//! Names of shared memory objects.

use vstd::prelude::*;

verus! {

/// The byte `/`.
pub const SLASH: u8 = 0x2F;

/// The name handed to the operating system for an allocation called `name`: its bytes, preceded
/// by a slash where the platform wants one, and ended by a NUL byte.
pub open spec fn shm_name_spec(name: Seq<u8>, leading_slash: bool) -> Seq<u8> {
    (if leading_slash {
        seq![SLASH]
    } else {
        Seq::<u8>::empty()
    }) + name + seq![0u8]
}

/// `out` holds the whole of `name`, unchanged, right after an optional leading slash, and ends in
/// a single NUL byte after it.
pub open spec fn keeps_every_byte(name: Seq<u8>, leading_slash: bool, out: Seq<u8>) -> bool {
    let start: int = if leading_slash {
        1
    } else {
        0
    };
    &&& out.len() == start + name.len() + 1
    &&& leading_slash ==> out[0] == SLASH
    &&& forall|i: int| 0 <= i < name.len() ==> out[start + i] == name[i]
    &&& out[out.len() - 1] == 0u8
}

/// The operating system name of an allocation keeps every byte of the allocation's name, for
/// names of every length: it is one byte longer (two with the slash), and the name stands in it
/// unchanged.
pub proof fn lemma_name_keeps_every_byte(name: Seq<u8>, leading_slash: bool)
    ensures
        shm_name_spec(name, leading_slash).len() == name.len() + 1 + (if leading_slash {
            1int
        } else {
            0int
        }),
        shm_name_spec(name, leading_slash).subrange(
            if leading_slash {
                1int
            } else {
                0int
            },
            name.len() + (if leading_slash {
                1int
            } else {
                0int
            }),
        ) == name,
        keeps_every_byte(name, leading_slash, shm_name_spec(name, leading_slash)),
{
    let out = shm_name_spec(name, leading_slash);
    let start: int = if leading_slash {
        1
    } else {
        0
    };
    assert(out.subrange(start, start + name.len()) =~= name);
}

/// The name handed to the operating system for an allocation called `name`: its bytes, preceded
/// by a slash where the platform wants one, and ended by a NUL byte. Callers leave the slash out of
/// `name`.
pub fn shm_name(name: &[u8], leading_slash: bool) -> (r: Vec<u8>)
    requires
        name@.len() + 2 <= usize::MAX,
    ensures
        r@ == shm_name_spec(name@, leading_slash),
        keeps_every_byte(name@, leading_slash, r@),
{
    let mut out: Vec<u8> = Vec::new();
    if leading_slash {
        out.push(SLASH);
    }
    let ghost prefix = out@;
    let mut i: usize = 0;
    while i < name.len()
        invariant
            i <= name@.len(),
            prefix == (if leading_slash {
                seq![SLASH]
            } else {
                Seq::<u8>::empty()
            }),
            out@ == prefix + name@.subrange(0, i as int),
        decreases name@.len() - i,
    {
        out.push(name[i]);
        assert(name@.subrange(0, i + 1) == name@.subrange(0, i as int).push(name@[i as int]));
        i = i + 1;
    }
    assert(name@.subrange(0, name@.len() as int) == name@);
    out.push(0u8);
    proof {
        lemma_name_keeps_every_byte(name@, leading_slash);
    }
    out
}

} // verus!
