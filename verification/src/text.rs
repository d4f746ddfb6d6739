//! Fixed-capacity text fields of the driver boundary.
//!
//! A driver reports its display name in a 32-byte field and its last
//! error message in a 124-byte field. Both are NUL-terminated byte
//! sequences inside a fixed capacity; nothing may ever be written or
//! read past that capacity, whatever the text's length.

use vstd::prelude::*;

verus! {

/// Capacity of the driver display-name field, in bytes.
pub const DRIVER_NAME_CAPACITY: usize = 32;

/// Capacity of the driver error-message field, in bytes.
pub const ERROR_MESSAGE_CAPACITY: usize = 124;

/// What a fixed field of capacity `cap` holds after `src` is written
/// into it: the text, truncated to `cap - 1` bytes, then zeroes to the
/// end of the field. At least the final byte is always zero.
pub open spec fn copied_c_text(cap: nat, src: Seq<u8>) -> Seq<u8> {
    Seq::new(cap, |i: int| if i < src.len() && i + 1 < cap { src[i] } else { 0u8 })
}

/// Writes `src` into the fixed field `dst`, truncating to the capacity
/// less one and zero-filling the rest, so the field stays
/// NUL-terminated and nothing lands past its end.
pub fn copy_c_text(dst: &mut Vec<u8>, src: &Vec<u8>)
    requires
        old(dst).len() >= 1,
    ensures
        final(dst)@ == copied_c_text(old(dst).len() as nat, src@),
{
    let cap: usize = dst.len();
    let mut n: usize = src.len();
    if n > cap - 1 {
        n = cap - 1;
    }
    let mut i: usize = 0;
    while i < n
        invariant
            n <= cap - 1,
            n <= src.len(),
            i <= n,
            cap == dst.len(),
            cap >= 1,
            forall|j: int| 0 <= j < i ==> dst@[j] == src@[j],
            forall|j: int| i <= j < cap ==> dst@[j] == old(dst)@[j],
        decreases n - i,
    {
        dst[i] = src[i];
        i = i + 1;
    }
    while i < cap
        invariant
            n <= cap - 1,
            n <= i,
            i <= cap,
            cap == dst.len(),
            forall|j: int| 0 <= j < n ==> dst@[j] == src@[j],
            forall|j: int| n <= j < i ==> dst@[j] == 0u8,
        decreases cap - i,
    {
        dst[i] = 0;
        i = i + 1;
    }
    assert(dst@ =~= copied_c_text(old(dst).len() as nat, src@));
}

/// The length of the text in a fixed field: the index of the first zero
/// byte, or the whole length where no byte is zero.
pub fn c_text_len(field: &Vec<u8>) -> (r: usize)
    ensures
        r <= field.len(),
        forall|j: int| 0 <= j < r ==> field@[j] != 0u8,
        r < field.len() ==> field@[r as int] == 0u8,
{
    let mut i: usize = 0;
    while i < field.len()
        invariant
            i <= field.len(),
            forall|j: int| 0 <= j < i ==> field@[j] != 0u8,
        decreases field.len() - i,
    {
        if *field.get(i).unwrap() == 0 {
            return i;
        }
        i = i + 1;
    }
    i
}

/// The text of a fixed field, read without its terminator: every byte
/// before the first zero, and never a byte past the capacity.
pub fn c_text_bytes(field: &Vec<u8>) -> (r: Vec<u8>)
    ensures
        r@.len() <= field.len(),
        r@ == field@.subrange(0, r@.len() as int),
        forall|j: int| 0 <= j < r@.len() ==> field@[j] != 0u8,
        r@.len() < field.len() ==> field@[r@.len() as int] == 0u8,
{
    let n: usize = c_text_len(field);
    let mut out: Vec<u8> = Vec::new();
    let mut i: usize = 0;
    while i < n
        invariant
            n <= field.len(),
            i <= n,
            out@.len() == i,
            forall|j: int| 0 <= j < i ==> out@[j] == field@[j],
            forall|j: int| 0 <= j < n ==> field@[j] != 0u8,
            n < field.len() ==> field@[n as int] == 0u8,
        decreases n - i,
    {
        out.push(*field.get(i).unwrap());
        i = i + 1;
    }
    assert(out@ =~= field@.subrange(0, out@.len() as int));
    out
}

/// The decimal digits of `n`, most significant first.
pub open spec fn dec_digits(n: nat) -> Seq<u8>
    decreases n,
{
    if n < 10 {
        seq![(48 + n) as u8]
    } else {
        dec_digits(n / 10).push((48 + n % 10) as u8)
    }
}

/// Renders a number as its decimal digits, most significant first.
pub fn u32_to_decimal(n: u32) -> (r: Vec<u8>)
    ensures
        r@ == dec_digits(n as nat),
    decreases n,
{
    if n < 10 {
        let mut v: Vec<u8> = Vec::new();
        v.push((48 + n) as u8);
        assert(v@ =~= dec_digits(n as nat));
        v
    } else {
        let mut v: Vec<u8> = u32_to_decimal(n / 10);
        v.push((48 + n % 10) as u8);
        assert(v@ =~= dec_digits(n as nat));
        v
    }
}

/// The fixed 32-byte display-name field.
#[derive(Debug, Clone)]
pub struct AsioName {
    pub inner: Vec<u8>,
}

impl AsioName {
    /// The field is exactly its capacity; text and terminator live
    /// inside it.
    pub open spec fn wf(self) -> bool {
        self.inner.len() == DRIVER_NAME_CAPACITY
    }

    /// A fresh field, zero-filled.
    pub fn new() -> (r: AsioName)
        ensures
            r.wf(),
            forall|j: int| 0 <= j < r.inner@.len() ==> r.inner@[j] == 0u8,
    {
        let mut inner: Vec<u8> = Vec::new();
        let mut i: usize = 0;
        while i < DRIVER_NAME_CAPACITY
            invariant
                inner@.len() == i,
                i <= DRIVER_NAME_CAPACITY,
                forall|j: int| 0 <= j < i ==> inner@[j] == 0u8,
            decreases DRIVER_NAME_CAPACITY - i,
        {
            inner.push(0);
            i = i + 1;
        }
        AsioName { inner }
    }

    /// Writes a text into the field, truncated to fit with its
    /// terminator.
    pub fn set_text(&mut self, text: &Vec<u8>)
        requires
            old(self).wf(),
        ensures
            final(self).wf(),
            final(self).inner@ == copied_c_text(DRIVER_NAME_CAPACITY as nat, text@),
    {
        copy_c_text(&mut self.inner, text);
    }

    /// The text before the first zero byte.
    pub fn to_bytes(&self) -> (r: Vec<u8>)
        ensures
            r@.len() <= self.inner.len(),
            r@ == self.inner@.subrange(0, r@.len() as int),
            forall|j: int| 0 <= j < r@.len() ==> self.inner@[j] != 0u8,
            r@.len() < self.inner.len() ==> self.inner@[r@.len() as int] == 0u8,
    {
        c_text_bytes(&self.inner)
    }
}

/// The fixed 124-byte error-message field.
#[derive(Debug, Clone)]
pub struct AsioErrorMsg {
    pub inner: Vec<u8>,
}

impl AsioErrorMsg {
    /// The field is exactly its capacity; text and terminator live
    /// inside it.
    pub open spec fn wf(self) -> bool {
        self.inner.len() == ERROR_MESSAGE_CAPACITY
    }

    /// A fresh field, zero-filled.
    pub fn new() -> (r: AsioErrorMsg)
        ensures
            r.wf(),
            forall|j: int| 0 <= j < r.inner@.len() ==> r.inner@[j] == 0u8,
    {
        let mut inner: Vec<u8> = Vec::new();
        let mut i: usize = 0;
        while i < ERROR_MESSAGE_CAPACITY
            invariant
                inner@.len() == i,
                i <= ERROR_MESSAGE_CAPACITY,
                forall|j: int| 0 <= j < i ==> inner@[j] == 0u8,
            decreases ERROR_MESSAGE_CAPACITY - i,
        {
            inner.push(0);
            i = i + 1;
        }
        AsioErrorMsg { inner }
    }

    /// Writes a text into the field, truncated to fit with its
    /// terminator.
    pub fn set_text(&mut self, text: &Vec<u8>)
        requires
            old(self).wf(),
        ensures
            final(self).wf(),
            final(self).inner@ == copied_c_text(ERROR_MESSAGE_CAPACITY as nat, text@),
    {
        copy_c_text(&mut self.inner, text);
    }

    /// The text before the first zero byte.
    pub fn to_bytes(&self) -> (r: Vec<u8>)
        ensures
            r@.len() <= self.inner.len(),
            r@ == self.inner@.subrange(0, r@.len() as int),
            forall|j: int| 0 <= j < r@.len() ==> self.inner@[j] != 0u8,
            r@.len() < self.inner.len() ==> self.inner@[r@.len() as int] == 0u8,
    {
        c_text_bytes(&self.inner)
    }
}

} // verus!
