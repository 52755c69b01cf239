use vstd::prelude::*;

verus! {

/// The word whose high byte is `hi` and low byte is `lo`.
pub open spec fn be_word(hi: u8, lo: u8) -> u16 {
    (hi as int * 256 + lo as int) as u16
}

/// The words of an image file after its origin: each pair of bytes from
/// offset 2 on, read big-endian; a trailing odd byte is dropped.
pub open spec fn image_words(bytes: Seq<u8>) -> Seq<u16> {
    Seq::new(
        ((bytes.len() - 2) / 2) as nat,
        |k: int| be_word(bytes[2 + 2 * k], bytes[3 + 2 * k]),
    )
}

/// Relies on byteorder's `BigEndian::read_u16`: it reads the first byte as the
/// high one.
#[verifier::external_body]
fn read_be_u16(hi: u8, lo: u8) -> (r: u16)
    ensures
        r == be_word(hi, lo),
{
    <byteorder::BigEndian as byteorder::ByteOrder>::read_u16(&[hi, lo])
}

/// Splits the bytes of an image file into its origin and its words. A file too
/// short to hold an origin gives `None`; a truncated last word is ignored.
pub fn parse_image(bytes: &Vec<u8>) -> (r: Option<(u16, Vec<u16>)>)
    ensures
        r.is_none() <==> bytes.len() < 2,
        r matches Some((origin, words)) ==> origin == be_word(bytes@[0], bytes@[1])
            && words@ == image_words(bytes@),
{
    if bytes.len() < 2 {
        return None;
    }
    let origin = read_be_u16(bytes[0], bytes[1]);
    let mut words: Vec<u16> = Vec::new();
    let mut i: usize = 2;
    while i + 1 < bytes.len()
        invariant
            2 <= i <= bytes.len(),
            i == 2 + 2 * words.len(),
            forall|k: int|
                0 <= k < words.len() ==> #[trigger] words@[k] == be_word(
                    bytes@[2 + 2 * k],
                    bytes@[3 + 2 * k],
                ),
        decreases bytes.len() - i,
    {
        let w = read_be_u16(bytes[i], bytes[i + 1]);
        words.push(w);
        i = i + 2;
    }
    assert(words@ =~= image_words(bytes@));
    Some((origin, words))
}

} // verus!
