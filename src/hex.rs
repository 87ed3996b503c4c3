//! A decoder for Intel HEX text: data records are placed at their addresses
//! in a byte image, extended-linear-address records set the upper 16 bits of
//! the address, and an end-of-file record ends the input.
use vstd::prelude::*;

verus! {

#[allow(inconsistent_fields)]
#[derive(Debug, Clone, Copy, PartialEq, Eq, Structural)]
pub enum Error {
    /// The text ended inside a record.
    UnexpectedEof,
    /// Expected an upper-case hex digit, one of `0123456789ABCDEF`.
    InvalidHexChar { found: char },
    /// Expected `:` at the start of a record.
    InvalidLineStart { found: char },
    /// The record type is not one of Intel HEX.
    UnknownRecordType { found: u8 },
    /// Record types 2, 3 and 5 (segment addresses and the start address) are
    /// not supported.
    UnsupportedRecordType { found: u8 },
    /// Expected `\r\n` or `\n` at the end of a record.
    InvalidNewLine { found: char },
    /// A data record reaches past the 32-bit address space.
    AddressOverflow,
}

/// The value of an upper-case hex digit.
pub open spec fn hex_digit_value(c: u8) -> Option<u8> {
    if 0x30 <= c <= 0x39 {
        Some((c - 0x30) as u8)
    } else if 0x41 <= c <= 0x46 {
        Some((c - 0x41 + 10) as u8)
    } else {
        None
    }
}

pub open spec fn hex_digit_at(text: Seq<u8>, p: int) -> Result<u8, Error> {
    if p < 0 || p >= text.len() {
        Err(Error::UnexpectedEof)
    } else {
        match hex_digit_value(text[p]) {
            Some(d) => Ok(d),
            None => Err(Error::InvalidHexChar { found: text[p] as char }),
        }
    }
}

/// The byte written as two hex digits at `p`, high digit first.
pub open spec fn hex_byte_at(text: Seq<u8>, p: int) -> Result<u8, Error> {
    match hex_digit_at(text, p) {
        Err(e) => Err(e),
        Ok(high) => match hex_digit_at(text, p + 1) {
            Err(e) => Err(e),
            Ok(low) => Ok((high * 16 + low) as u8),
        },
    }
}

/// The 16-bit value written as four hex digits at `p`, high byte first.
pub open spec fn hex_word_at(text: Seq<u8>, p: int) -> Result<u16, Error> {
    match hex_byte_at(text, p) {
        Err(e) => Err(e),
        Ok(high) => match hex_byte_at(text, p + 2) {
            Err(e) => Err(e),
            Ok(low) => Ok((high * 256 + low) as u16),
        },
    }
}

/// `n` bytes written as hex digits from `p` on.
pub open spec fn hex_bytes_at(text: Seq<u8>, p: int, n: nat) -> Result<Seq<u8>, Error>
    decreases n,
{
    if n == 0 {
        Ok(Seq::empty())
    } else {
        match hex_bytes_at(text, p, (n - 1) as nat) {
            Err(e) => Err(e),
            Ok(bytes) => match hex_byte_at(text, p + 2 * (n - 1)) {
                Err(e) => Err(e),
                Ok(b) => Ok(bytes.push(b)),
            },
        }
    }
}

/// The position after the checksum field that starts at `p`. The checksum
/// is not checked: a first character that is no hex digit is skipped alone,
/// otherwise two characters are skipped, as far as the text goes.
pub open spec fn after_checksum(text: Seq<u8>, p: int) -> int {
    if p >= text.len() {
        p
    } else if hex_digit_value(text[p]) is None || p + 1 >= text.len() {
        p + 1
    } else {
        p + 2
    }
}

/// The position after the line ending (`\r\n` or `\n`) at `p`.
pub open spec fn after_line_end(text: Seq<u8>, p: int) -> Result<int, Error> {
    if p < 0 || p >= text.len() {
        Err(Error::UnexpectedEof)
    } else if text[p] == 0x0D {
        if p + 1 >= text.len() {
            Err(Error::UnexpectedEof)
        } else if text[p + 1] == 0x0A {
            Ok(p + 2)
        } else {
            Err(Error::InvalidNewLine { found: text[p + 1] as char })
        }
    } else if text[p] == 0x0A {
        Ok(p + 1)
    } else {
        Err(Error::InvalidNewLine { found: text[p] as char })
    }
}

/// `image` with `b` at `pos`, extended with zeros as far as needed.
pub open spec fn placed(image: Seq<u8>, pos: int, b: u8) -> Seq<u8> {
    let grown = if image.len() <= pos {
        image + Seq::new((pos + 1 - image.len()) as nat, |i: int| 0u8)
    } else {
        image
    };
    grown.update(pos, b)
}

/// `image` with `data` placed from `base` on.
pub open spec fn stored(image: Seq<u8>, base: int, data: Seq<u8>) -> Seq<u8>
    decreases data.len(),
{
    if data.len() == 0 {
        image
    } else {
        placed(stored(image, base, data.drop_last()), base + data.len() - 1, data.last())
    }
}

/// What a record leaves: the position after it, the upper address, the
/// image, and whether it ended the input.
pub struct RecordOutcome {
    pub next: int,
    pub upper: u16,
    pub image: Seq<u8>,
    pub done: bool,
}

/// The record at `p`: `:`, byte count, 16-bit address, record type, then the
/// data, the checksum and the line ending.
pub open spec fn record(text: Seq<u8>, p: int, upper: u16, image: Seq<u8>) -> Result<RecordOutcome, Error> {
    if p < 0 || p >= text.len() {
        Err(Error::UnexpectedEof)
    } else if text[p] != 0x3A {
        Err(Error::InvalidLineStart { found: text[p] as char })
    } else {
        match hex_byte_at(text, p + 1) {
            Err(e) => Err(e),
            Ok(count) => match hex_word_at(text, p + 3) {
                Err(e) => Err(e),
                Ok(addr) => match hex_byte_at(text, p + 7) {
                    Err(e) => Err(e),
                    Ok(kind) => {
                        let q = p + 9;
                        if kind == 0 {
                            match hex_bytes_at(text, q, count as nat) {
                                Err(e) => Err(e),
                                Ok(data) => if upper * 0x10000 + addr + count > 0x1_0000_0000 {
                                    Err(Error::AddressOverflow)
                                } else {
                                    match after_line_end(text, after_checksum(text, q + 2 * count)) {
                                    Err(e) => Err(e),
                                    Ok(next) => Ok(
                                        RecordOutcome {
                                            next,
                                            upper,
                                            image: stored(image, upper * 0x10000 + addr, data),
                                            done: false,
                                        },
                                    ),
                                }
                                },
                            }
                        } else if kind == 1 {
                            Ok(RecordOutcome { next: q, upper, image, done: true })
                        } else if kind == 4 {
                            match hex_word_at(text, q) {
                                Err(e) => Err(e),
                                Ok(new_upper) => match after_line_end(text, after_checksum(text, q + 4)) {
                                    Err(e) => Err(e),
                                    Ok(next) => Ok(RecordOutcome { next, upper: new_upper, image, done: false }),
                                },
                            }
                        } else if 2 <= kind <= 5 {
                            Err(Error::UnsupportedRecordType { found: kind })
                        } else {
                            Err(Error::UnknownRecordType { found: kind })
                        }
                    },
                },
            },
        }
    }
}

/// The image that the records from `p` on produce, starting from `upper`
/// and `image`. Every record ends after the position it starts at, so the
/// recursion ends.
pub open spec fn records_from(text: Seq<u8>, p: int, upper: u16, image: Seq<u8>) -> Result<Seq<u8>, Error>
    decreases text.len() - p,
{
    match record(text, p, upper, image) {
        Err(e) => Err(e),
        Ok(o) => if o.done {
            Ok(o.image)
        } else if p < o.next <= text.len() {
            records_from(text, o.next, o.upper, o.image)
        } else {
            Err(Error::UnexpectedEof)
        },
    }
}

/// The image that the Intel HEX `text` describes.
pub open spec fn decoded(text: Seq<u8>) -> Result<Seq<u8>, Error> {
    records_from(text, 0, 0, Seq::empty())
}

/// `r` is the image or the error of `expected`.
pub open spec fn decode_result_matches(r: Result<Vec<u8>, Error>, expected: Result<Seq<u8>, Error>) -> bool {
    match r {
        Ok(v) => expected == Ok::<Seq<u8>, Error>(v@),
        Err(e) => expected == Err::<Seq<u8>, Error>(e),
    }
}

} // verus!

verus! {

proof fn lemma_hex_bytes_error_persists(text: Seq<u8>, p: int, i: nat, n: nat)
    requires
        i <= n,
        hex_bytes_at(text, p, i) is Err,
    ensures
        hex_bytes_at(text, p, n) == hex_bytes_at(text, p, i),
    decreases n - i,
{
    if i < n {
        lemma_hex_bytes_error_persists(text, p, i, (n - 1) as nat);
    }
}

/// Places `b` at `pos`, extending `image` with zeros as far as needed.
fn place(image: &mut Vec<u8>, pos: usize, b: u8)
    ensures
        final(image)@ == placed(old(image)@, pos as int, b),
{
    let ghost before = image@;
    while image.len() <= pos
        invariant
            before.len() <= image@.len(),
            image@.len() <= before.len() || image@.len() <= pos + 1,
            image@ =~= before + Seq::new((image@.len() - before.len()) as nat, |i: int| 0u8),
        decreases pos + 1 - image@.len(),
    {
        image.push(0);
    }
    image[pos] = b;
}

/// Places `data` from `base` on.
fn store(image: &mut Vec<u8>, base: usize, data: &Vec<u8>)
    requires
        base + data@.len() <= usize::MAX + 1,
    ensures
        final(image)@ == stored(old(image)@, base as int, data@),
{
    let ghost before = image@;
    let mut i: usize = 0;
    while i < data.len()
        invariant
            i <= data@.len(),
            base + data@.len() <= usize::MAX + 1,
            image@ == stored(before, base as int, data@.take(i as int)),
        decreases data@.len() - i,
    {
        assert(data@.take(i + 1).drop_last() =~= data@.take(i as int));
        place(image, base + i, data[i]);
        i = i + 1;
    }
    assert(data@.take(i as int) =~= data@);
}

/// A decoder for Intel HEX text.
pub struct IntelHexDecoder {
    text: Vec<u8>,
}

impl IntelHexDecoder {
    /// The text being decoded.
    pub closed spec fn text(&self) -> Seq<u8> {
        self.text@
    }

    pub fn new(text: Vec<u8>) -> (r: Self)
        ensures
            r.text() == text@,
    {
        IntelHexDecoder { text }
    }

    fn decode_hex_char(&self, p: usize) -> (r: Result<u8, Error>)
        ensures
            r == hex_digit_at(self.text@, p as int),
            self.text@.len() <= usize::MAX,
    {
        if p >= self.text.len() {
            return Err(Error::UnexpectedEof);
        }
        let c = self.text[p];
        if 0x30 <= c && c <= 0x39 {
            Ok(c - 0x30)
        } else if 0x41 <= c && c <= 0x46 {
            Ok(c - 0x41 + 10)
        } else {
            Err(Error::InvalidHexChar { found: c as char })
        }
    }

    fn decode_hex_u8(&self, p: usize) -> (r: Result<u8, Error>)
        requires
            p <= self.text@.len(),
        ensures
            r == hex_byte_at(self.text@, p as int),
            self.text@.len() <= usize::MAX,
    {
        let high = match self.decode_hex_char(p) {
            Ok(d) => d,
            Err(e) => return Err(e),
        };
        let low = match self.decode_hex_char(p + 1) {
            Ok(d) => d,
            Err(e) => return Err(e),
        };
        Ok(high * 16 + low)
    }

    fn decode_hex_u16(&self, p: usize) -> (r: Result<u16, Error>)
        requires
            p <= self.text@.len(),
        ensures
            r == hex_word_at(self.text@, p as int),
    {
        let high = match self.decode_hex_u8(p) {
            Ok(b) => b,
            Err(e) => return Err(e),
        };
        let low = match self.decode_hex_u8(p + 2) {
            Ok(b) => b,
            Err(e) => return Err(e),
        };
        Ok(high as u16 * 256 + low as u16)
    }

    fn decode_hex_bytes(&self, p: usize, n: u8) -> (r: Result<Vec<u8>, Error>)
        requires
            p <= self.text@.len(),
            self.text@.len() <= usize::MAX,
        ensures
            match hex_bytes_at(self.text@, p as int, n as nat) {
                Ok(bytes) => r matches Ok(v) && v@ == bytes && v@.len() == n && p + 2 * n
                    <= self.text@.len(),
                Err(e) => r == Err::<Vec<u8>, Error>(e),
            },
    {
        let mut bytes: Vec<u8> = Vec::new();
        let mut i: u8 = 0;
        while i < n
            invariant
                i <= n,
                self.text@.len() <= usize::MAX,
                p + 2 * i <= self.text@.len(),
                bytes@.len() == i,
                hex_bytes_at(self.text@, p as int, i as nat) == Ok::<Seq<u8>, Error>(bytes@),
            decreases n - i,
        {
            match self.decode_hex_u8(p + 2 * i as usize) {
                Ok(b) => bytes.push(b),
                Err(e) => {
                    proof {
                        lemma_hex_bytes_error_persists(self.text@, p as int, (i + 1) as nat, n as nat);
                    }
                    return Err(e);
                },
            }
            i = i + 1;
        }
        Ok(bytes)
    }

    fn skip_checksum(&self, p: usize) -> (r: usize)
        requires
            p <= self.text@.len(),
        ensures
            r == after_checksum(self.text@, p as int),
            r <= self.text@.len(),
    {
        if p >= self.text.len() {
            p
        } else if self.decode_hex_char(p).is_err() || p + 1 >= self.text.len() {
            p + 1
        } else {
            p + 2
        }
    }

    fn skip_line_end(&self, p: usize) -> (r: Result<usize, Error>)
        requires
            p <= self.text@.len(),
        ensures
            match after_line_end(self.text@, p as int) {
                Ok(next) => r == Ok::<usize, Error>(next as usize) && next <= self.text@.len(),
                Err(e) => r == Err::<usize, Error>(e),
            },
    {
        if p >= self.text.len() {
            return Err(Error::UnexpectedEof);
        }
        let c = self.text[p];
        if c == 0x0D {
            if p + 1 >= self.text.len() {
                Err(Error::UnexpectedEof)
            } else if self.text[p + 1] == 0x0A {
                Ok(p + 2)
            } else {
                Err(Error::InvalidNewLine { found: self.text[p + 1] as char })
            }
        } else if c == 0x0A {
            Ok(p + 1)
        } else {
            Err(Error::InvalidNewLine { found: c as char })
        }
    }
}

} // verus!

verus! {

impl IntelHexDecoder {
    /// Decodes the record at `p`, adding its data to `image`; returns the
    /// position after it, the upper address, and whether it ended the input.
    fn decode_record(&self, p: usize, upper: u16, image: &mut Vec<u8>) -> (r: Result<(usize, u16, bool), Error>)
        requires
            p <= self.text@.len(),
        ensures
            match record(self.text@, p as int, upper, old(image)@) {
                Ok(o) => r matches Ok((next, new_upper, done)) && next == o.next && new_upper == o.upper
                    && done == o.done && final(image)@ == o.image,
                Err(e) => r == Err::<(usize, u16, bool), Error>(e),
            },
    {
        if p >= self.text.len() {
            return Err(Error::UnexpectedEof);
        }
        if self.text[p] != 0x3A {
            return Err(Error::InvalidLineStart { found: self.text[p] as char });
        }
        let count = match self.decode_hex_u8(p + 1) {
            Ok(b) => b,
            Err(e) => return Err(e),
        };
        let addr = match self.decode_hex_u16(p + 3) {
            Ok(w) => w,
            Err(e) => return Err(e),
        };
        let kind = match self.decode_hex_u8(p + 7) {
            Ok(b) => b,
            Err(e) => return Err(e),
        };
        let q = p + 9;
        if kind == 0 {
            let data = match self.decode_hex_bytes(q, count) {
                Ok(v) => v,
                Err(e) => return Err(e),
            };
            let base: u64 = upper as u64 * 0x10000 + addr as u64;
            if base + count as u64 > 0x1_0000_0000 {
                return Err(Error::AddressOverflow);
            }
            let next = match self.skip_line_end(self.skip_checksum(q + 2 * count as usize)) {
                Ok(n) => n,
                Err(e) => return Err(e),
            };
            store(image, base as usize, &data);
            Ok((next, upper, false))
        } else if kind == 1 {
            Ok((q, upper, true))
        } else if kind == 4 {
            let new_upper = match self.decode_hex_u16(q) {
                Ok(w) => w,
                Err(e) => return Err(e),
            };
            let next = match self.skip_line_end(self.skip_checksum(q + 4)) {
                Ok(n) => n,
                Err(e) => return Err(e),
            };
            Ok((next, new_upper, false))
        } else if 2 <= kind && kind <= 5 {
            Err(Error::UnsupportedRecordType { found: kind })
        } else {
            Err(Error::UnknownRecordType { found: kind })
        }
    }

    /// The image that the text describes, or the first error in it.
    pub fn decode(self) -> (r: Result<Vec<u8>, Error>)
        ensures
            decode_result_matches(r, decoded(self.text())),
    {
        let mut image: Vec<u8> = Vec::new();
        let mut upper: u16 = 0;
        let mut pos: usize = 0;
        loop
            invariant
                pos <= self.text@.len(),
                records_from(self.text@, pos as int, upper, image@) == decoded(self.text@),
            decreases self.text@.len() - pos,
        {
            match self.decode_record(pos, upper, &mut image) {
                Err(e) => return Err(e),
                Ok((next, new_upper, done)) => {
                    if done {
                        return Ok(image);
                    }
                    if !(pos < next && next <= self.text.len()) {
                        return Err(Error::UnexpectedEof);
                    }
                    pos = next;
                    upper = new_upper;
                },
            }
        }
    }
}

/// Decodes Intel HEX `text` into the byte image it describes.
pub fn decode_intel_hex(text: &[u8]) -> (r: Result<Vec<u8>, Error>)
    ensures
        decode_result_matches(r, decoded(text@)),
{
    let mut owned: Vec<u8> = Vec::new();
    let mut i: usize = 0;
    while i < text.len()
        invariant
            i <= text@.len(),
            owned@ == text@.take(i as int),
        decreases text@.len() - i,
    {
        owned.push(text[i]);
        i = i + 1;
    }
    assert(owned@ =~= text@);
    IntelHexDecoder::new(owned).decode()
}

} // verus!
