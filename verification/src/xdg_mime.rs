//! Reading the answer of the `xdg-mime` tool.

use vstd::prelude::*;

verus! {

/// The output without one trailing newline.
pub open spec fn stripped(output: Seq<u8>) -> Seq<u8> {
    if output.len() > 0 && output.last() == 0x0au8 {
        output.drop_last()
    } else {
        output
    }
}

/// Takes the MIME type out of what `xdg-mime query filetype` printed: its
/// output without the newline that ends it.
pub fn mime_from_output(output: &[u8]) -> (r: Vec<u8>)
    ensures
        r@ == stripped(output@),
{
    let n = output.len();
    let keep = if n > 0 && output[n - 1] == 0x0au8 {
        n - 1
    } else {
        n
    };
    let mut r: Vec<u8> = Vec::new();
    let mut i: usize = 0;
    while i < keep
        invariant
            i <= keep <= output@.len(),
            r@ == output@.take(i as int),
        decreases keep - i,
    {
        r.push(output[i]);
        assert(r@ =~= output@.take(i + 1));
        i += 1;
    }
    assert(output@.take(output@.len() as int) =~= output@);
    assert(output@.len() > 0 ==> output@.take(output@.len() - 1) =~= output@.drop_last());
    r
}

} // verus!
