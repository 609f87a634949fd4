use vstd::prelude::*;

verus! {

/// The text that `String::from_utf8_lossy` makes of `bytes`: the decoded characters, with
/// each invalid sequence replaced by U+FFFD.
pub uninterp spec fn lossy_utf8(bytes: Seq<u8>) -> Seq<char>;

/// `String::from_utf8_lossy(bytes).into_owned()`. The contract names the result
/// `lossy_utf8(bytes@)`, a function of the bytes alone, and states what std's documentation
/// promises of valid input: valid UTF-8 is decoded as it is. How invalid sequences are
/// replaced is left to the name.
#[verifier::external_body]
fn utf8_lossy(bytes: &[u8]) -> (res: String)
    ensures
        res@ == lossy_utf8(bytes@),
        vstd::utf8::valid_utf8(bytes@) ==> res@ == vstd::utf8::decode_utf8(bytes@),
{
    String::from_utf8_lossy(bytes).into_owned()
}

/// Turns the bytes of a shader asset into the shader's source text.
#[derive(Debug)]
pub struct ShaderDecoder;

impl ShaderDecoder {
    /// The source text in `buf`, decoded as UTF-8 with invalid sequences replaced.
    pub fn decode(buf: &[u8]) -> (res: String)
        ensures
            res@ == lossy_utf8(buf@),
            vstd::utf8::valid_utf8(buf@) ==> res@ == vstd::utf8::decode_utf8(buf@),
    {
        utf8_lossy(buf)
    }
}

} // verus!
