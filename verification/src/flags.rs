//! Flags of the attribute-setting calls, parsed strictly from a raw integer.

use vstd::prelude::*;

verus! {

/// The bit that asks for "create only": fail if the attribute exists.
pub const XATTR_CREATE: u32 = 1;

/// The bit that asks for "replace only": fail if the attribute is missing.
pub const XATTR_REPLACE: u32 = 2;

/// A raw flag word is recognized when it sets no bit other than
/// [`XATTR_CREATE`] and [`XATTR_REPLACE`].
pub open spec fn recognized(bits: u32) -> bool {
    bits & !(XATTR_CREATE | XATTR_REPLACE) == 0
}

/// A validated set of attribute-creation flags.
#[derive(Clone, Copy, Debug, PartialEq, Eq, Structural)]
pub struct XattrFlags {
    bits: u32,
}

/// Trusted: `rustix::fs::XattrFlags::CREATE`, read through `bits()`.
/// rustix defines it as the platform's `XATTR_CREATE`, which is 1.
#[verifier::external_body]
fn create_bit() -> (r: u32)
    ensures
        r == XATTR_CREATE,
{
    rustix::fs::XattrFlags::CREATE.bits()
}

/// Trusted: `rustix::fs::XattrFlags::REPLACE`, read through `bits()`.
/// rustix defines it as the platform's `XATTR_REPLACE`, which is 2.
#[verifier::external_body]
fn replace_bit() -> (r: u32)
    ensures
        r == XATTR_REPLACE,
{
    rustix::fs::XattrFlags::REPLACE.bits()
}

/// Trusted: `rustix::fs::XattrFlags::from_bits`, with the flags it yields
/// turned back into their bits. rustix declares every bit of the word as
/// known (its flag set ends in a catch-all member), so the call accepts any
/// word and keeps it unchanged.
#[verifier::external_body]
fn known_bits(bits: u32) -> (r: Option<u32>)
    ensures
        r == Some(bits),
{
    match rustix::fs::XattrFlags::from_bits(bits) {
        Some(flags) => Some(flags.bits()),
        None => None,
    }
}

/// The recognized words are exactly 0, 1, 2 and 3.
pub proof fn lemma_recognized_words(bits: u32)
    ensures
        recognized(bits) <==> bits <= 3,
{
    assert((bits & !(1u32 | 2u32) == 0) <==> bits <= 3) by (bit_vector);
}

/// A negative raw integer is never recognized, and a non-negative one is
/// recognized exactly when it is at most 3.
pub proof fn lemma_recognized_raw(raw: i32)
    ensures
        recognized(raw as u32) <==> 0 <= raw <= 3,
{
    assert((raw as u32) <= 3 <==> 0 <= raw <= 3) by (bit_vector);
    lemma_recognized_words(raw as u32);
}

impl XattrFlags {
    /// The raw bits of this flag set.
    pub closed spec fn view(&self) -> u32 {
        self.bits
    }

    /// Every value of this type holds a recognized word.
    pub closed spec fn wf(&self) -> bool {
        recognized(self.bits)
    }

    /// The unrestricted flag set: create or replace, as needed.
    pub fn empty() -> (r: XattrFlags)
        ensures
            r.wf(),
            r@ == 0,
    {
        proof {
            lemma_recognized_words(0);
        }
        XattrFlags { bits: 0 }
    }

    /// Parses an unsigned flag word. Succeeds exactly on recognized words,
    /// and then keeps every bit of the word.
    pub fn from_bits(bits: u32) -> (r: Option<XattrFlags>)
        ensures
            recognized(bits) ==> r.is_some() && r.unwrap()@ == bits && r.unwrap().wf(),
            !recognized(bits) ==> r.is_none(),
    {
        let known: u32 = create_bit() | replace_bit();
        if bits & !known != 0 {
            return None;
        }
        match known_bits(bits) {
            Some(kept) => Some(XattrFlags { bits: kept }),
            None => None,
        }
    }

    /// Parses the signed integer of the C interface, reinterpreting its bits
    /// as unsigned first. Succeeds exactly when `raw` is 0, 1, 2 or 3.
    pub fn from_raw(raw: i32) -> (r: Option<XattrFlags>)
        ensures
            0 <= raw <= 3 ==> r.is_some() && r.unwrap()@ == raw && r.unwrap().wf(),
            !(0 <= raw <= 3) ==> r.is_none(),
    {
        proof {
            lemma_recognized_raw(raw);
            assert(0 <= raw ==> (raw as u32) == raw) by (bit_vector);
        }
        XattrFlags::from_bits(#[verifier::truncate] (raw as u32))
    }

    /// Parses a flag word that the caller has promised to be recognized.
    /// An unrecognized word is a misuse of the interface, not a runtime
    /// condition, so it is ruled out here instead of being reported.
    pub fn from_raw_strict(raw: i32) -> (r: XattrFlags)
        requires
            0 <= raw <= 3,
        ensures
            r.wf(),
            r@ == raw,
    {
        match XattrFlags::from_raw(raw) {
            Some(flags) => flags,
            None => XattrFlags::empty(),
        }
    }

    /// The raw bits, as handed to the system call.
    pub fn bits(&self) -> (r: u32)
        ensures
            r == self@,
    {
        self.bits
    }

    /// Whether "create only" is requested.
    pub fn create_only(&self) -> (r: bool)
        ensures
            r <==> self@ & XATTR_CREATE != 0,
    {
        self.bits & create_bit() != 0
    }

    /// Whether "replace only" is requested.
    pub fn replace_only(&self) -> (r: bool)
        ensures
            r <==> self@ & XATTR_REPLACE != 0,
    {
        self.bits & replace_bit() != 0
    }
}

} // verus!
