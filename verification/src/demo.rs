use vstd::prelude::*;

verus! {

/// The bytes of `Hello `, the greeting prefix.
pub open spec fn greeting_prefix() -> Seq<u8> {
    seq![72u8, 101u8, 108u8, 108u8, 111u8, 32u8]
}

/// The greeting the RPC demo backend replies with: `Hello `, the caller's
/// name, and an exclamation mark.
pub open spec fn greeting_of(name: Seq<u8>) -> Seq<u8> {
    greeting_prefix() + name + seq![33u8]
}

/// The bytes of `Hello, World!`, the fixed body of the REST demo backend.
pub open spec fn hello_world_text() -> Seq<u8> {
    seq![
        72u8, 101u8, 108u8, 108u8, 111u8, 44u8, 32u8, 87u8, 111u8, 114u8, 108u8, 100u8, 33u8,
    ]
}

/// Build the greeting body for one caller's name.
pub fn greeting(name: &Vec<u8>) -> (out: Vec<u8>)
    ensures
        out@ == greeting_of(name@),
{
    let mut out: Vec<u8> = Vec::new();
    out.push(72u8);
    out.push(101u8);
    out.push(108u8);
    out.push(108u8);
    out.push(111u8);
    out.push(32u8);
    proof {
        assert(out@ =~= greeting_prefix() + name@.subrange(0, 0));
    }
    let mut i: usize = 0;
    while i < name.len()
        invariant
            i <= name@.len(),
            out@ == greeting_prefix() + name@.subrange(0, i as int),
        decreases name@.len() - i,
    {
        out.push(name[i]);
        proof {
            assert(greeting_prefix() + name@.subrange(0, i + 1) =~= (greeting_prefix()
                + name@.subrange(0, i as int)).push(name@[i as int]));
        }
        i += 1;
    }
    proof {
        assert(name@.subrange(0, name@.len() as int) =~= name@);
    }
    out.push(33u8);
    proof {
        assert(out@ =~= greeting_of(name@));
    }
    out
}

/// The fixed body of the REST demo backend.
pub fn hello_world_body() -> (out: Vec<u8>)
    ensures
        out@ == hello_world_text(),
{
    let mut out: Vec<u8> = Vec::new();
    out.push(72u8);
    out.push(101u8);
    out.push(108u8);
    out.push(108u8);
    out.push(111u8);
    out.push(44u8);
    out.push(32u8);
    out.push(87u8);
    out.push(111u8);
    out.push(114u8);
    out.push(108u8);
    out.push(100u8);
    out.push(33u8);
    proof {
        assert(out@ =~= hello_world_text());
    }
    out
}

} // verus!
