use vstd::prelude::*;
use vstd::string::StringSliceAdditionalSpecFns;

verus! {

/// The byte that ends an upload and confirms it to the remote `scp -t`.
pub const SCP_CONFIRM: u8 = 0;

/// The ASCII digit for a value below ten.
pub open spec fn digit(d: nat) -> u8 {
    ('0' as u8 + d) as u8
}

/// The octal digits of `n`, most significant first, without leading zeros.
pub open spec fn octal(n: nat) -> Seq<u8>
    decreases n,
{
    if n < 8 {
        seq![digit(n)]
    } else {
        octal(n / 8).push(digit(n % 8))
    }
}

/// The decimal digits of `n`, most significant first, without leading zeros.
pub open spec fn decimal(n: nat) -> Seq<u8>
    decreases n,
{
    if n < 10 {
        seq![digit(n)]
    } else {
        decimal(n / 10).push(digit(n % 10))
    }
}

/// The line that announces a file to `scp -t`: `C0`, the permission bits
/// in octal, the length in decimal and the file's name, separated by
/// spaces and ended by a newline.
pub open spec fn scp_header_bytes(permissions: nat, len: nat, basename: Seq<u8>) -> Seq<u8> {
    seq!['C' as u8, '0' as u8] + octal(permissions) + seq![' ' as u8] + decimal(len) + seq![
        ' ' as u8,
    ] + basename + seq!['\n' as u8]
}

fn push_octal(out: &mut Vec<u8>, n: usize)
    ensures
        final(out)@ == old(out)@ + octal(n as nat),
    decreases n,
{
    if n >= 8 {
        push_octal(out, n / 8);
    }
    out.push(48u8 + (n % 8) as u8);  // '0' + digit
}

fn push_decimal(out: &mut Vec<u8>, n: usize)
    ensures
        final(out)@ == old(out)@ + decimal(n as nat),
    decreases n,
{
    if n >= 10 {
        push_decimal(out, n / 10);
    }
    out.push(48u8 + (n % 10) as u8);  // '0' + digit
}

/// The header sent ahead of a file's contents when uploading it with
/// `scp -t`.
pub fn scp_header(permissions: usize, contents_len: usize, basename: &str) -> (r: Vec<u8>)
    ensures
        r@ == scp_header_bytes(permissions as nat, contents_len as nat, basename.spec_bytes()),
{
    let mut r: Vec<u8> = Vec::new();
    r.push(67u8);  // 'C'
    r.push(48u8);  // '0'
    push_octal(&mut r, permissions);
    r.push(32u8);  // ' '
    push_decimal(&mut r, contents_len);
    r.push(32u8);  // ' '
    let name = basename.as_bytes();
    let ghost head = r@;
    let mut i: usize = 0;
    while i < name.len()
        invariant
            i <= name@.len(),
            r@ == head + name@.subrange(0, i as int),
        decreases name@.len() - i,
    {
        r.push(name[i]);
        i = i + 1;
        assert(name@.subrange(0, i as int) =~= name@.subrange(0, i - 1).push(name@[i - 1]));
    }
    r.push(10u8);  // '\n'
    assert(name@.subrange(0, name@.len() as int) =~= name@);
    assert(r@ =~= scp_header_bytes(permissions as nat, contents_len as nat, basename.spec_bytes()));
    r
}

} // verus!
