//! The fixed-record decoder: turns the raw fixed-width byte buffers returned
//! by the device-control calls into identity records with trimmed UTF-8 text
//! fields.
//!
//! Each record is a flat little-endian byte buffer with documented field
//! offsets and widths. A text field holds a UTF-8 byte sequence padded with
//! trailing zero bytes up to its fixed width; decoding removes the padding
//! and fails with `MalformedRecord` when the remaining bytes are not valid
//! UTF-8.

use vstd::prelude::*;
use vstd::slice::{slice_index_get, slice_subrange, slice_to_vec};
use vstd::utf8::{decode_utf8, valid_utf8};

use crate::error::{HdaError, RecordField};

verus! {

/// Size in bytes of the raw device-identity record.
pub const DEVICE_RECORD_SIZE: usize = 220;

/// Size in bytes of the raw card-identity record.
pub const CARD_RECORD_SIZE: usize = 376;

/// The byte sequence with its trailing zero padding removed.
pub open spec fn trim_nul(bytes: Seq<u8>) -> Seq<u8>
    decreases bytes.len(),
{
    if bytes.len() > 0 && bytes.last() == 0 {
        trim_nul(bytes.drop_last())
    } else {
        bytes
    }
}

/// True when a raw text field decodes: after removing the trailing zero
/// padding, the remaining bytes are valid UTF-8.
pub open spec fn text_field_ok(bytes: Seq<u8>) -> bool {
    valid_utf8(trim_nul(bytes))
}

/// The text a raw field decodes to: the UTF-8 decoding of the bytes left
/// after removing the trailing zero padding.
pub open spec fn text_field_chars(bytes: Seq<u8>) -> Seq<char> {
    decode_utf8(trim_nul(bytes))
}

/// Relies on `String::from_utf8`: it succeeds exactly when the bytes are
/// well-formed UTF-8, and the returned string then holds those very bytes,
/// so its characters are their UTF-8 decoding.
#[verifier::external_body]
fn utf8_to_string(bytes: Vec<u8>) -> (r: Option<String>)
    ensures
        r is Some <==> valid_utf8(bytes@),
        r is Some ==> r->0@ == decode_utf8(bytes@),
{
    String::from_utf8(bytes).ok()
}

/// Decodes one fixed-width text sub-range `[start, start + len)` of a record
/// buffer: the trailing zero padding is removed and the remaining bytes must
/// be valid UTF-8, else the named field is reported as malformed.
pub fn decode_text_field(buf: &[u8], start: usize, len: usize, field: RecordField) -> (r: Result<
    String,
    HdaError,
>)
    requires
        start + len <= buf@.len(),
    ensures
        r is Ok <==> text_field_ok(buf@.subrange(start as int, start as int + len as int)),
        r is Ok ==> r->Ok_0@ == text_field_chars(
            buf@.subrange(start as int, start as int + len as int),
        ),
        r is Err ==> r->Err_0 == (HdaError::MalformedRecord { field }),
{
    proof {
        vstd::slice::axiom_spec_len::<u8>(buf);
    }
    let sub = slice_subrange(buf, start, start + len);
    let ghost full = sub@;
    proof {
        assert(full.subrange(0, len as int) =~= full);
    }
    let mut j: usize = len;
    while j > 0 && *slice_index_get(sub, j - 1) == 0
        invariant
            j <= len,
            sub@ == full,
            full.len() == len as nat,
            trim_nul(full) == trim_nul(full.subrange(0, j as int)),
        decreases j,
    {
        proof {
            let s = full.subrange(0, j as int);
            assert(s.last() == full[j - 1]);
            assert(s.drop_last() =~= full.subrange(0, j as int - 1));
        }
        j = j - 1;
    }
    proof {
        let s = full.subrange(0, j as int);
        assert(trim_nul(s) == s);
    }
    let trimmed = slice_subrange(sub, 0, j);
    let bytes = slice_to_vec(trimmed);
    match utf8_to_string(bytes) {
        Some(s) => Ok(s),
        None => Err(HdaError::MalformedRecord { field }),
    }
}

/// The unsigned 32-bit value stored little-endian in a 4-byte sub-range.
pub open spec fn le_u32_of(b: Seq<u8>) -> u32
    recommends
        b.len() == 4,
{
    (b[0] + b[1] * 0x100 + b[2] * 0x10000 + b[3] * 0x1000000) as u32
}

/// The signed 32-bit value whose two's-complement bits are `u`.
pub open spec fn i32_of_bits(u: u32) -> i32 {
    if u <= 0x7fff_ffff {
        u as i32
    } else {
        (u - 0x1_0000_0000) as i32
    }
}

/// The signed 32-bit value stored little-endian in a 4-byte sub-range.
pub open spec fn le_i32_of(b: Seq<u8>) -> i32
    recommends
        b.len() == 4,
{
    i32_of_bits(le_u32_of(b))
}

/// Reads the unsigned little-endian 32-bit field at byte offset `off`.
fn read_le_u32(buf: &[u8], off: usize) -> (r: u32)
    requires
        off + 4 <= buf@.len(),
    ensures
        r == le_u32_of(buf@.subrange(off as int, off as int + 4)),
{
    let n: usize = buf.len();
    proof {
        vstd::slice::axiom_spec_len::<u8>(buf);
    }
    let b0 = *slice_index_get(buf, off) as u32;
    let b1 = *slice_index_get(buf, off + 1) as u32;
    let b2 = *slice_index_get(buf, off + 2) as u32;
    let b3 = *slice_index_get(buf, off + 3) as u32;
    proof {
        let s = buf@.subrange(off as int, off as int + 4);
        assert(s[0] == buf@[off as int]);
        assert(s[1] == buf@[off as int + 1]);
        assert(s[2] == buf@[off as int + 2]);
        assert(s[3] == buf@[off as int + 3]);
    }
    b0 + b1 * 0x100 + b2 * 0x10000 + b3 * 0x1000000
}

/// A vector of `n` zero bytes, as used for the zero-filled raw fields of a
/// freshly constructed record.
fn zeroed(n: usize) -> (v: Vec<u8>)
    ensures
        v@.len() == n as nat,
        forall|i: int| 0 <= i < n ==> v@[i] == 0,
{
    let mut v: Vec<u8> = Vec::new();
    let mut i: usize = 0;
    while i < n
        invariant
            i <= n,
            v@.len() == i as nat,
            forall|k: int| 0 <= k < i ==> v@[k] == 0,
        decreases n - i,
    {
        v.push(0);
        i = i + 1;
    }
    v
}

/// Reads the signed little-endian 32-bit field at byte offset `off`.
fn read_le_i32(buf: &[u8], off: usize) -> (r: i32)
    requires
        off + 4 <= buf@.len(),
    ensures
        r == le_i32_of(buf@.subrange(off as int, off as int + 4)),
{
    let u = read_le_u32(buf, off);
    if u <= 0x7fff_ffff {
        u as i32
    } else {
        let d = 0xffff_ffffu32 - u;
        -(d as i32) - 1
    }
}

/// Decodes a whole raw text field held in a vector.
fn decode_text_vec(bytes: &Vec<u8>, field: RecordField) -> (r: Result<String, HdaError>)
    ensures
        r is Ok <==> text_field_ok(bytes@),
        r is Ok ==> r->Ok_0@ == text_field_chars(bytes@),
        r is Err ==> r->Err_0 == (HdaError::MalformedRecord { field }),
{
    let r = decode_text_field(bytes.as_slice(), 0, bytes.len(), field);
    proof {
        assert(bytes@.subrange(0, bytes@.len() as int) =~= bytes@);
    }
    r
}

/// The raw device-identity record: the numeric fields plus the text fields
/// still in their fixed-width, zero-padded byte form.
#[allow(non_camel_case_types)]
pub struct c_hda_info {
    pub device_number: u32,
    pub card_number: i32,
    pub _id: Vec<u8>,
    pub hwdep_name: Vec<u8>,
    pub hwdep_interface: i32,
}

/// The decoded identity of one audio sub-device.
pub struct DeviceInfo {
    pub device_number: u32,
    pub card_number: i32,
    pub id: String,
    pub name: String,
    pub interface: i32,
}

/// The error reported for the first device-record text field that fails to
/// decode.
pub open spec fn device_decode_error(info: c_hda_info) -> HdaError {
    if !text_field_ok(info._id@) {
        HdaError::MalformedRecord { field: RecordField::DeviceId }
    } else {
        HdaError::MalformedRecord { field: RecordField::DeviceName }
    }
}

impl c_hda_info {
    /// The raw record's declared shape: each text field filled to its fixed
    /// width.
    pub open spec fn wf(&self) -> bool {
        self._id@.len() == 64 && self.hwdep_name@.len() == 80
    }

    /// Decodes the raw record into a `DeviceInfo`: numeric fields pass
    /// through unchanged, text fields are trimmed of their zero padding and
    /// decoded as UTF-8. The first field that is not valid UTF-8 is reported
    /// as malformed.
    pub fn to_deviceinfo(&self) -> (r: Result<DeviceInfo, HdaError>)
        ensures
            r is Ok <==> text_field_ok(self._id@) && text_field_ok(self.hwdep_name@),
            r is Ok ==> {
                &&& r->Ok_0.device_number == self.device_number
                &&& r->Ok_0.card_number == self.card_number
                &&& r->Ok_0.interface == self.hwdep_interface
                &&& r->Ok_0.id@ == text_field_chars(self._id@)
                &&& r->Ok_0.name@ == text_field_chars(self.hwdep_name@)
            },
            r is Err ==> r->Err_0 == device_decode_error(*self),
    {
        let id = match decode_text_vec(&self._id, RecordField::DeviceId) {
            Ok(s) => s,
            Err(e) => {
                return Err(e);
            },
        };
        let name = match decode_text_vec(&self.hwdep_name, RecordField::DeviceName) {
            Ok(s) => s,
            Err(e) => {
                return Err(e);
            },
        };
        Ok(
            DeviceInfo {
                device_number: self.device_number,
                card_number: self.card_number,
                id,
                name,
                interface: self.hwdep_interface,
            },
        )
    }
}

impl Default for c_hda_info {
    /// A fresh raw device record: numbers unset (card number at its -1
    /// sentinel) and text fields zero-filled to their fixed widths.
    fn default() -> (d: Self)
        ensures
            d.wf(),
            d.device_number == 0,
            d.card_number == -1,
            d.hwdep_interface == 0,
            forall|i: int| 0 <= i < 64 ==> d._id@[i] == 0,
            forall|i: int| 0 <= i < 80 ==> d.hwdep_name@[i] == 0,
    {
        c_hda_info {
            device_number: 0,
            card_number: -1,
            _id: zeroed(64),
            hwdep_name: zeroed(80),
            hwdep_interface: 0,
        }
    }
}

/// The raw card-identity record: the card number plus the text fields still
/// in their fixed-width, zero-padded byte form. The raw buffer's padding and
/// reserved sub-ranges carry no information and are not retained.
#[allow(non_camel_case_types)]
pub struct c_card_info {
    pub card: i32,
    pub id: Vec<u8>,
    pub driver: Vec<u8>,
    pub name: Vec<u8>,
    pub longname: Vec<u8>,
    pub mixername: Vec<u8>,
    pub components: Vec<u8>,
}

/// The decoded identity of one sound card.
pub struct CardInfo {
    pub card: i32,
    pub id: String,
    pub driver: String,
    pub name: String,
    pub longname: String,
    pub mixername: String,
    pub components: String,
}

/// The error reported for the first card-record text field that fails to
/// decode.
pub open spec fn card_decode_error(info: c_card_info) -> HdaError {
    if !text_field_ok(info.id@) {
        HdaError::MalformedRecord { field: RecordField::CardId }
    } else if !text_field_ok(info.driver@) {
        HdaError::MalformedRecord { field: RecordField::CardDriver }
    } else if !text_field_ok(info.name@) {
        HdaError::MalformedRecord { field: RecordField::CardName }
    } else if !text_field_ok(info.longname@) {
        HdaError::MalformedRecord { field: RecordField::CardLongname }
    } else if !text_field_ok(info.mixername@) {
        HdaError::MalformedRecord { field: RecordField::CardMixername }
    } else {
        HdaError::MalformedRecord { field: RecordField::CardComponents }
    }
}

/// True when every text field of the raw card record decodes.
pub open spec fn card_fields_ok(info: c_card_info) -> bool {
    &&& text_field_ok(info.id@)
    &&& text_field_ok(info.driver@)
    &&& text_field_ok(info.name@)
    &&& text_field_ok(info.longname@)
    &&& text_field_ok(info.mixername@)
    &&& text_field_ok(info.components@)
}

impl c_card_info {
    /// The raw record's declared shape: each text field filled to its fixed
    /// width.
    pub open spec fn wf(&self) -> bool {
        &&& self.id@.len() == 16
        &&& self.driver@.len() == 16
        &&& self.name@.len() == 32
        &&& self.longname@.len() == 80
        &&& self.mixername@.len() == 80
        &&& self.components@.len() == 128
    }

    /// Decodes the raw record into a `CardInfo`: the card number passes
    /// through unchanged, text fields are trimmed of their zero padding and
    /// decoded as UTF-8. The first field that is not valid UTF-8 is reported
    /// as malformed.
    pub fn to_cardinfo(&self) -> (r: Result<CardInfo, HdaError>)
        ensures
            r is Ok <==> card_fields_ok(*self),
            r is Ok ==> {
                &&& r->Ok_0.card == self.card
                &&& r->Ok_0.id@ == text_field_chars(self.id@)
                &&& r->Ok_0.driver@ == text_field_chars(self.driver@)
                &&& r->Ok_0.name@ == text_field_chars(self.name@)
                &&& r->Ok_0.longname@ == text_field_chars(self.longname@)
                &&& r->Ok_0.mixername@ == text_field_chars(self.mixername@)
                &&& r->Ok_0.components@ == text_field_chars(self.components@)
            },
            r is Err ==> r->Err_0 == card_decode_error(*self),
    {
        let id = match decode_text_vec(&self.id, RecordField::CardId) {
            Ok(s) => s,
            Err(e) => {
                return Err(e);
            },
        };
        let driver = match decode_text_vec(&self.driver, RecordField::CardDriver) {
            Ok(s) => s,
            Err(e) => {
                return Err(e);
            },
        };
        let name = match decode_text_vec(&self.name, RecordField::CardName) {
            Ok(s) => s,
            Err(e) => {
                return Err(e);
            },
        };
        let longname = match decode_text_vec(&self.longname, RecordField::CardLongname) {
            Ok(s) => s,
            Err(e) => {
                return Err(e);
            },
        };
        let mixername = match decode_text_vec(&self.mixername, RecordField::CardMixername) {
            Ok(s) => s,
            Err(e) => {
                return Err(e);
            },
        };
        let components = match decode_text_vec(&self.components, RecordField::CardComponents) {
            Ok(s) => s,
            Err(e) => {
                return Err(e);
            },
        };
        Ok(CardInfo { card: self.card, id, driver, name, longname, mixername, components })
    }
}

impl Default for c_card_info {
    /// A fresh raw card record: the card number at its -1 sentinel and text
    /// fields zero-filled to their fixed widths.
    fn default() -> (d: Self)
        ensures
            d.wf(),
            d.card == -1,
            forall|i: int| 0 <= i < 16 ==> d.id@[i] == 0,
            forall|i: int| 0 <= i < 16 ==> d.driver@[i] == 0,
            forall|i: int| 0 <= i < 32 ==> d.name@[i] == 0,
            forall|i: int| 0 <= i < 80 ==> d.longname@[i] == 0,
            forall|i: int| 0 <= i < 80 ==> d.mixername@[i] == 0,
            forall|i: int| 0 <= i < 128 ==> d.components@[i] == 0,
    {
        c_card_info {
            card: -1,
            id: zeroed(16),
            driver: zeroed(16),
            name: zeroed(32),
            longname: zeroed(80),
            mixername: zeroed(80),
            components: zeroed(128),
        }
    }
}

/// Deserializes the raw device-identity record from its flat little-endian
/// byte buffer: device number at offset 0, card number at 4, the id bytes at
/// 8, the name bytes at 72, the interface code at 152; the trailing reserved
/// bytes carry no information.
pub fn parse_device_record(buf: &[u8]) -> (info: c_hda_info)
    requires
        buf@.len() == DEVICE_RECORD_SIZE,
    ensures
        info.wf(),
        info.device_number == le_u32_of(buf@.subrange(0, 4)),
        info.card_number == le_i32_of(buf@.subrange(4, 8)),
        info._id@ == buf@.subrange(8, 72),
        info.hwdep_name@ == buf@.subrange(72, 152),
        info.hwdep_interface == le_i32_of(buf@.subrange(152, 156)),
{
    c_hda_info {
        device_number: read_le_u32(buf, 0),
        card_number: read_le_i32(buf, 4),
        _id: slice_to_vec(slice_subrange(buf, 8, 72)),
        hwdep_name: slice_to_vec(slice_subrange(buf, 72, 152)),
        hwdep_interface: read_le_i32(buf, 152),
    }
}

/// Deserializes the raw card-identity record from its flat little-endian
/// byte buffer: card number at offset 0, then the id bytes at 8, driver at
/// 24, name at 40, long name at 72, mixer name at 168 and components at 248;
/// the padding word at 4 and the reserved bytes at 152 carry no information.
pub fn parse_card_record(buf: &[u8]) -> (info: c_card_info)
    requires
        buf@.len() == CARD_RECORD_SIZE,
    ensures
        info.wf(),
        info.card == le_i32_of(buf@.subrange(0, 4)),
        info.id@ == buf@.subrange(8, 24),
        info.driver@ == buf@.subrange(24, 40),
        info.name@ == buf@.subrange(40, 72),
        info.longname@ == buf@.subrange(72, 152),
        info.mixername@ == buf@.subrange(168, 248),
        info.components@ == buf@.subrange(248, 376),
{
    c_card_info {
        card: read_le_i32(buf, 0),
        id: slice_to_vec(slice_subrange(buf, 8, 24)),
        driver: slice_to_vec(slice_subrange(buf, 24, 40)),
        name: slice_to_vec(slice_subrange(buf, 40, 72)),
        longname: slice_to_vec(slice_subrange(buf, 72, 152)),
        mixername: slice_to_vec(slice_subrange(buf, 168, 248)),
        components: slice_to_vec(slice_subrange(buf, 248, 376)),
    }
}

} // verus!
