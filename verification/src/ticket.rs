//! The license record of a title: the signed payload that carries the
//! wrapped title key.

use vstd::prelude::*;
use crate::bytes::{
    read_array, read_u16_be, read_u32_be, read_u64_be, u16_be_at, u32_be_at, u64_be_at,
    u64_be_bytes, window,
};
use crate::crypto::{
    aes128_cbc_decrypt, aes128_cbc_decrypted, GlobalKeyBag, KeyBag, KeyIndex, SignedData,
};
use crate::error::{CytrynaError, CytrynaResult};
use crate::titleid::MaybeTitleIdBe;
use crate::FromBytes;

verus! {

/// The length of the fixed part of a ticket's data.
pub const TICKET_MIN_SIZE: usize = 0x124;

/// The data of a ticket, without the issuer's name, read over
/// caller-owned bytes.
#[derive(Debug)]
pub struct TicketInner<'a> {
    bytes: &'a [u8],
}

impl<'a> FromBytes<'a> for TicketInner<'a> {
    open spec fn spec_min_size() -> nat {
        TICKET_MIN_SIZE as nat
    }

    /// A ticket has no magic: there is nothing to check but the length.
    open spec fn spec_bytes_ok(bytes: Seq<u8>) -> CytrynaResult<()> {
        Ok(())
    }

    open spec fn spec_hash_ok(bytes: Seq<u8>) -> bool {
        true
    }

    closed spec fn raw(&self) -> Seq<u8> {
        self.bytes@
    }

    open spec fn wf(&self) -> bool {
        self.raw().len() >= TICKET_MIN_SIZE
    }

    fn min_size() -> (r: usize) {
        TICKET_MIN_SIZE
    }

    fn bytes_ok(bytes: &[u8]) -> (r: CytrynaResult<()>) {
        Ok(())
    }

    fn cast(bytes: &'a [u8]) -> (r: Self) {
        assert(Self::spec_min_size() == 0x124);
        let r = TicketInner { bytes };
        assert(r.raw() == bytes@);
        r
    }

    fn hash_ok(&self) -> (r: bool) {
        true
    }
}

impl<'a> TicketInner<'a> {
    /// The ECC public key: the first 0x3c bytes.
    pub fn ecc_pubkey(&self) -> (r: [u8; 0x3c])
        requires
            self.wf(),
        ensures
            r@ == self.raw().subrange(0, 0x3c),
    {
        read_array::<0x3c>(self.bytes, 0)
    }

    /// The version of the ticket format: the byte at 0x3c.
    pub fn version(&self) -> (r: u8)
        requires
            self.wf(),
        ensures
            r == self.raw()[0x3c],
    {
        self.bytes[0x3c]
    }

    /// The title key as the ticket stores it, still wrapped: the sixteen
    /// bytes at 0x3f.
    pub fn title_key(&self) -> (r: [u8; 0x10])
        requires
            self.wf(),
        ensures
            r@ == self.raw().subrange(0x3f, 0x4f),
    {
        read_array::<0x10>(self.bytes, 0x3f)
    }

    /// The id of the ticket: big-endian at 0x50.
    pub fn ticket_id(&self) -> (r: u64)
        requires
            self.wf(),
        ensures
            r == u64_be_at(self.raw(), 0x50),
    {
        read_u64_be(self.bytes, 0x50)
    }

    /// The id of the console the ticket is bound to: big-endian at 0x58.
    pub fn console_id(&self) -> (r: u32)
        requires
            self.wf(),
        ensures
            r == u32_be_at(self.raw(), 0x58),
    {
        read_u32_be(self.bytes, 0x58)
    }

    /// The id of the title: big-endian at 0x5c.
    pub fn title_id(&self) -> (r: MaybeTitleIdBe)
        requires
            self.wf(),
        ensures
            r.raw == u64_be_at(self.raw(), 0x5c),
    {
        MaybeTitleIdBe { raw: read_u64_be(self.bytes, 0x5c) }
    }

    /// The version of the title: big-endian at 0x66.
    pub fn ticket_title_version(&self) -> (r: u16)
        requires
            self.wf(),
        ensures
            r == u16_be_at(self.raw(), 0x66),
    {
        read_u16_be(self.bytes, 0x66)
    }

    /// The license type: the byte at 0x70.
    pub fn license_type(&self) -> (r: u8)
        requires
            self.wf(),
        ensures
            r == self.raw()[0x70],
    {
        self.bytes[0x70]
    }

    /// The index of the common key that wraps the title key: the byte at
    /// 0x71.
    pub fn key_index(&self) -> (r: u8)
        requires
            self.wf(),
        ensures
            r == self.raw()[0x71],
    {
        self.bytes[0x71]
    }

    /// The audit byte, at 0xa1.
    pub fn audit(&self) -> (r: u8)
        requires
            self.wf(),
        ensures
            r == self.raw()[0xa1],
    {
        self.bytes[0xa1]
    }

    /// The limits: the 0x40 bytes at 0xe4.
    pub fn limits(&self) -> (r: [u8; 0x40])
        requires
            self.wf(),
        ensures
            r@ == self.raw().subrange(0xe4, 0x124),
    {
        read_array::<0x40>(self.bytes, 0xe4)
    }

    /// The content index: whatever follows the fixed part.
    pub fn content_index(&self) -> (r: &'a [u8])
        requires
            self.wf(),
        ensures
            r@ == self.raw().skip(0x124),
    {
        let r = window(self.bytes, TICKET_MIN_SIZE, self.bytes.len() - TICKET_MIN_SIZE);
        assert(r@ =~= self.raw().skip(0x124));
        r
    }
}

/// A ticket: the signed envelope around a ticket's data.
pub type Ticket<'a> = SignedData<'a, TicketInner<'a>>;

/// The initialization vector that unwraps a title key: the eight bytes of
/// the title id, big-endian, and eight zero bytes.
pub open spec fn spec_title_key_iv(title_id: u64) -> Seq<u8> {
    u64_be_bytes(title_id) + Seq::new(8, |i: int| 0u8)
}

/// What unwrapping the title key of a ticket with the data `ticket` gives
/// with the keys published to a place: the title key, or the reason why
/// there is none. The key is the one block of the wrapped key, decrypted
/// with AES-128-CBC under the common normal key that the ticket names.
pub open spec fn spec_title_key(published: Option<KeyBag>, ticket: Seq<u8>) -> CytrynaResult<
    Seq<u8>,
> {
    match published {
        None => Err(CytrynaError::NoKeyBag),
        Some(bag) => {
            let idx = KeyIndex::CommonN(ticket[0x71]);
            if bag@.contains_key(idx) {
                Ok(
                    aes128_cbc_decrypted(
                        bag@[idx],
                        spec_title_key_iv(u64_be_at(ticket, 0x5c)),
                        ticket.subrange(0x3f, 0x4f),
                    ),
                )
            } else {
                Err(CytrynaError::MissingKey(idx))
            }
        },
    }
}

/// The initialization vector that unwraps the title key of `title_id`.
pub fn title_key_iv(title_id: MaybeTitleIdBe) -> (r: [u8; 0x10])
    ensures
        r@ == spec_title_key_iv(title_id.raw),
{
    let id = title_id.to_bytes();
    let mut iv = [0u8; 0x10];
    let mut i: usize = 0;
    while i < 8
        invariant
            i <= 8,
            id@ == u64_be_bytes(title_id.raw),
            forall|k: int| 0 <= k < i ==> iv@[k] == id@[k],
            forall|k: int| i <= k < 16 ==> iv@[k] == 0,
        decreases 8 - i,
    {
        iv[i] = id[i];
        i = i + 1;
    }
    assert(iv@ =~= spec_title_key_iv(title_id.raw));
    iv
}

impl<'a> SignedData<'a, TicketInner<'a>> {
    /// The title key, unwrapped with the common key that the ticket names.
    pub fn title_key(&self, global: &GlobalKeyBag) -> (r: CytrynaResult<[u8; 0x10]>)
        requires
            self.wf(),
        ensures
            match r {
                Ok(key) => spec_title_key(global.published(), self.payload().raw()) == Ok::<
                    Seq<u8>,
                    CytrynaError,
                >(key@),
                Err(e) => spec_title_key(global.published(), self.payload().raw()) == Err::<
                    Seq<u8>,
                    CytrynaError,
                >(e),
            },
    {
        let ticket = self.data();
        let iv = title_key_iv(ticket.title_id());
        let wrapped = ticket.title_key();
        let idx = ticket.key_index();
        let bag = match KeyBag::global(global) {
            Ok(bag) => bag,
            Err(e) => {
                return Err(e);
            },
        };
        let key = match bag.get_key(KeyIndex::CommonN(idx)) {
            Ok(key) => key,
            Err(e) => {
                return Err(e);
            },
        };
        match aes128_cbc_decrypt(key, &iv, wrapped.as_slice()) {
            Some(plain) => {
                let title_key = read_array::<0x10>(plain.as_slice(), 0);
                assert(title_key@ =~= plain@);
                Ok(title_key)
            },
            None => vstd::pervasive::unreached(),
        }
    }

    /// The title key as the ticket stores it, still wrapped.
    #[must_use]
    pub fn title_key_raw(&self) -> (r: [u8; 0x10])
        requires
            self.wf(),
        ensures
            r@ == self.payload().raw().subrange(0x3f, 0x4f),
    {
        self.data().title_key()
    }

    /// The index of the common key that wraps the title key.
    #[must_use]
    pub fn key_index(&self) -> (r: u8)
        requires
            self.wf(),
        ensures
            r == self.payload().raw()[0x71],
    {
        self.data().key_index()
    }
}

} // verus!
