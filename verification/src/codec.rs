//! Fixed binary codec of [`VaultMetadata`].
//!
//! The layout is self-delimiting, fields in fixed order, each
//! variable-length field preceded by a one-byte length prefix and each
//! 32-bit integer stored little-endian:
//!
//! ```text
//! [version:1][tid_len:1][tid_bytes:tid_len][delay_blocks:4 LE]
//! [dest_count:1][dest_bytes:dest_count][recovery_type:1]
//! [created_at_block:4 LE][vault_index:4 LE]
//! ```
//!
//! [`spec_encode`] and [`spec_decode`] state the layout mathematically;
//! the executable codec is proved against them, and the round-trip and
//! rejection laws at the bottom of this file tie the two together.
use vstd::bytes::lemma_auto_spec_u32_to_from_le_bytes;
use vstd::bytes::spec_u32_from_le_bytes;
use vstd::bytes::spec_u32_to_le_bytes;
use vstd::bytes::u32_from_le_bytes;
use vstd::bytes::u32_to_le_bytes;
use vstd::prelude::*;
use vstd::slice::slice_index_get;
use vstd::slice::slice_subrange;
use vstd::slice::slice_to_vec;
use vstd::string::StringExecFns;
use vstd::utf8::decode_utf8;
use vstd::utf8::decode_utf8_encode_utf8;
use vstd::utf8::encode_utf8;
use vstd::utf8::encode_utf8_decode_utf8;
use vstd::utf8::encode_utf8_valid_utf8;
use vstd::utf8::valid_utf8;

use crate::decimal::decimal_digits;
use crate::decimal::u64_to_decimal;
use crate::error::CoreError;
use crate::vault::RecoveryType;
use crate::vault::VaultMetadata;
use crate::vault::VaultMetadataView;

verus! {

/// The byte length of the fixed-width part of the layout: version, the two
/// length prefixes, the recovery-type byte and three 32-bit integers.
pub open spec fn fixed_overhead() -> int {
    16
}

/// The encoding of a metadata record, assuming both variable-length fields
/// fit their one-byte length prefixes.
pub open spec fn spec_encode(m: VaultMetadataView) -> Seq<u8> {
    let tid = encode_utf8(m.template_id);
    seq![m.version] + seq![tid.len() as u8] + tid + spec_u32_to_le_bytes(m.delay_blocks) + seq![
        m.destination_indices.len() as u8,
    ] + m.destination_indices + seq![m.recovery_type.spec_byte()] + spec_u32_to_le_bytes(
        m.created_at_block,
    ) + spec_u32_to_le_bytes(m.vault_index)
}

/// The recovery type encoded by a byte in `0..=2`.
pub open spec fn spec_recovery_type_of_byte(b: u8) -> RecoveryType
    recommends
        b <= 2,
{
    if b == 0 {
        RecoveryType::EmergencyKey
    } else if b == 1 {
        RecoveryType::TimelockOnly
    } else {
        RecoveryType::MultiSig
    }
}

/// The decoder: either the metadata a buffer holds, or the payload of the
/// `MetadataError` rejecting it. Every field read first checks that enough
/// bytes remain; bytes after the last field are ignored.
pub open spec fn spec_decode(bytes: Seq<u8>) -> Result<VaultMetadataView, Seq<char>> {
    if bytes.len() == 0 {
        Err("Empty metadata bytes"@)
    } else if bytes.len() < 2 {
        Err("Truncated metadata"@)
    } else {
        let tid_len = bytes[1] as int;
        if 2 + tid_len > bytes.len() {
            Err("Invalid template_id length"@)
        } else {
            let tid_bytes = bytes.subrange(2, 2 + tid_len);
            if !valid_utf8(tid_bytes) {
                Err("Invalid UTF-8 in template_id"@)
            } else {
                let p1 = 2 + tid_len;
                if p1 + 4 > bytes.len() {
                    Err("Truncated delay_blocks"@)
                } else {
                    let p2 = p1 + 4;
                    if p2 >= bytes.len() {
                        Err("Truncated destination_indices"@)
                    } else {
                        let dest_count = bytes[p2] as int;
                        let p3 = p2 + 1;
                        if p3 + dest_count > bytes.len() {
                            Err("Invalid destination_indices length"@)
                        } else {
                            let p4 = p3 + dest_count;
                            if p4 >= bytes.len() {
                                Err("Truncated recovery_type"@)
                            } else if bytes[p4] > 2 {
                                Err("Invalid recovery_type: "@ + decimal_digits(bytes[p4] as nat))
                            } else {
                                let p5 = p4 + 1;
                                if p5 + 4 > bytes.len() {
                                    Err("Truncated created_at_block"@)
                                } else {
                                    let p6 = p5 + 4;
                                    if p6 + 4 > bytes.len() {
                                        Err("Truncated vault_index"@)
                                    } else {
                                        Ok(
                                            VaultMetadataView {
                                                version: bytes[0],
                                                template_id: decode_utf8(tid_bytes),
                                                delay_blocks: spec_u32_from_le_bytes(
                                                    bytes.subrange(p1, p2),
                                                ),
                                                destination_indices: bytes.subrange(p3, p4),
                                                recovery_type: spec_recovery_type_of_byte(
                                                    bytes[p4],
                                                ),
                                                created_at_block: spec_u32_from_le_bytes(
                                                    bytes.subrange(p5, p6),
                                                ),
                                                vault_index: spec_u32_from_le_bytes(
                                                    bytes.subrange(p6, p6 + 4),
                                                ),
                                            },
                                        )
                                    }
                                }
                            }
                        }
                    }
                }
            }
        }
    }
}

/// Relies on `String::from_utf8`: succeeds exactly on valid UTF-8, and the
/// returned string's characters decode those bytes.
#[verifier::external_body]
fn string_from_utf8(bytes: Vec<u8>) -> (r: Option<String>)
    ensures
        r is Some <==> valid_utf8(bytes@),
        r matches Some(s) ==> s@ == decode_utf8(bytes@),
{
    match String::from_utf8(bytes) {
        Ok(s) => Some(s),
        Err(_) => None,
    }
}

fn metadata_error(msg: &str) -> (e: CoreError)
    ensures
        e matches CoreError::MetadataError(s) && s@ == msg@,
{
    CoreError::MetadataError(String::from_str(msg))
}

impl VaultMetadata {
    /// Encode metadata to bytes for a script leaf. Total and deterministic
    /// for any record whose variable-length fields respect the one-byte
    /// length prefixes.
    pub fn to_bytes(&self) -> (r: Vec<u8>)
        requires
            self@.wf(),
        ensures
            r@ == spec_encode(self@),
            r@.len() == fixed_overhead() + encode_utf8(self@.template_id).len()
                + self@.destination_indices.len(),
    {
        let mut bytes: Vec<u8> = Vec::new();
        bytes.push(self.version);
        let tb: &[u8] = self.template_id.as_str().as_bytes();
        bytes.push(tb.len() as u8);
        let mut tid = slice_to_vec(tb);
        bytes.append(&mut tid);
        let mut delay = u32_to_le_bytes(self.delay_blocks);
        bytes.append(&mut delay);
        bytes.push(self.destination_indices.len() as u8);
        let mut dest = slice_to_vec(self.destination_indices.as_slice());
        bytes.append(&mut dest);
        bytes.push(self.recovery_type.byte());
        let mut created = u32_to_le_bytes(self.created_at_block);
        bytes.append(&mut created);
        let mut index = u32_to_le_bytes(self.vault_index);
        bytes.append(&mut index);
        proof {
            assert(bytes@ =~= spec_encode(self@));
        }
        bytes
    }

    /// Whether both variable-length fields fit their one-byte length
    /// prefixes, so that [`Self::to_bytes`] may be called.
    pub fn encodable(&self) -> (b: bool)
        ensures
            b == self@.wf(),
    {
        self.template_id.as_str().as_bytes().len() <= 255 && self.destination_indices.len() <= 255
    }

    /// Encode metadata to bytes, rejecting a record whose variable-length
    /// fields would overflow their one-byte length prefixes instead of
    /// silently corrupting the prefix bytes.
    pub fn try_to_bytes(&self) -> (r: Result<Vec<u8>, CoreError>)
        ensures
            self@.wf() ==> (r matches Ok(v) && v@ == spec_encode(self@)),
            encode_utf8(self@.template_id).len() > 255 ==> (r matches Err(e) && e matches
                CoreError::MetadataError(s) && s@ == "template_id exceeds 255 bytes"@),
            encode_utf8(self@.template_id).len() <= 255 && self@.destination_indices.len() > 255
                ==> (r matches Err(e) && e matches CoreError::MetadataError(s) && s@
                == "destination_indices exceeds 255 entries"@),
    {
        if self.template_id.as_str().as_bytes().len() > 255 {
            Err(metadata_error("template_id exceeds 255 bytes"))
        } else if self.destination_indices.len() > 255 {
            Err(metadata_error("destination_indices exceeds 255 entries"))
        } else {
            Ok(self.to_bytes())
        }
    }

    /// Decode metadata from bytes. Returns the record a buffer holds, or a
    /// `MetadataError` whose payload names the first field that is
    /// truncated or invalid; it never reads past the end of the buffer.
    pub fn from_bytes(data: &[u8]) -> (r: Result<VaultMetadata, CoreError>)
        ensures
            r is Ok <==> spec_decode(data@) is Ok,
            r matches Ok(m) ==> spec_decode(data@) matches Ok(v) && m@ == v && m@.wf(),
            r matches Err(e) ==> e matches CoreError::MetadataError(s) && spec_decode(
                data@,
            ) matches Err(msg) && s@ == msg,
    {
        if data.len() == 0 {
            return Err(metadata_error("Empty metadata bytes"));
        }
        let version: u8 = *slice_index_get(data, 0);
        if data.len() < 2 {
            return Err(metadata_error("Truncated metadata"));
        }
        let tid_len: usize = *slice_index_get(data, 1) as usize;
        if tid_len > data.len() - 2 {
            return Err(metadata_error("Invalid template_id length"));
        }
        let tid_end: usize = 2 + tid_len;
        let tid_bytes: Vec<u8> = slice_to_vec(slice_subrange(data, 2, tid_end));
        let template_id: String = match string_from_utf8(tid_bytes) {
            Some(s) => s,
            None => {
                return Err(metadata_error("Invalid UTF-8 in template_id"));
            },
        };
        if data.len() - tid_end < 4 {
            return Err(metadata_error("Truncated delay_blocks"));
        }
        let delay_blocks: u32 = u32_from_le_bytes(slice_subrange(data, tid_end, tid_end + 4));
        let p2: usize = tid_end + 4;
        if p2 >= data.len() {
            return Err(metadata_error("Truncated destination_indices"));
        }
        let dest_count: usize = *slice_index_get(data, p2) as usize;
        let p3: usize = p2 + 1;
        if dest_count > data.len() - p3 {
            return Err(metadata_error("Invalid destination_indices length"));
        }
        let p4: usize = p3 + dest_count;
        let destination_indices: Vec<u8> = slice_to_vec(slice_subrange(data, p3, p4));
        if p4 >= data.len() {
            return Err(metadata_error("Truncated recovery_type"));
        }
        let rb: u8 = *slice_index_get(data, p4);
        let recovery_type: RecoveryType = if rb == 0 {
            RecoveryType::EmergencyKey
        } else if rb == 1 {
            RecoveryType::TimelockOnly
        } else if rb == 2 {
            RecoveryType::MultiSig
        } else {
            let mut s = String::from_str("Invalid recovery_type: ");
            let d = u64_to_decimal(rb as u64);
            s.append(d.as_str());
            return Err(CoreError::MetadataError(s));
        };
        let p5: usize = p4 + 1;
        if data.len() - p5 < 4 {
            return Err(metadata_error("Truncated created_at_block"));
        }
        let created_at_block: u32 = u32_from_le_bytes(slice_subrange(data, p5, p5 + 4));
        let p6: usize = p5 + 4;
        if data.len() - p6 < 4 {
            return Err(metadata_error("Truncated vault_index"));
        }
        let vault_index: u32 = u32_from_le_bytes(slice_subrange(data, p6, p6 + 4));
        proof {
            decode_utf8_encode_utf8(data@.subrange(2, 2 + tid_len as int));
        }
        Ok(
            VaultMetadata {
                version,
                template_id,
                delay_blocks,
                destination_indices,
                recovery_type,
                created_at_block,
                vault_index,
            },
        )
    }
}

/// Round-trip law: decoding an encoding reproduces every field exactly,
/// for every record whose variable-length fields respect the one-byte
/// length prefixes.
pub proof fn lemma_decode_encode(m: VaultMetadataView)
    requires
        m.wf(),
    ensures
        spec_decode(spec_encode(m)) == Ok::<VaultMetadataView, Seq<char>>(m),
{
    let tid = encode_utf8(m.template_id);
    let tl = tid.len() as int;
    let dl = m.destination_indices.len() as int;
    let e = spec_encode(m);
    lemma_auto_spec_u32_to_from_le_bytes();
    encode_utf8_valid_utf8(m.template_id);
    encode_utf8_decode_utf8(m.template_id);
    assert(e.len() == 16 + tl + dl);
    assert(e[0] == m.version);
    assert(e[1] as int == tl);
    assert(e.subrange(2, 2 + tl) =~= tid);
    assert(e.subrange(2 + tl, 6 + tl) =~= spec_u32_to_le_bytes(m.delay_blocks));
    assert(e[6 + tl] as int == dl);
    assert(e.subrange(7 + tl, 7 + tl + dl) =~= m.destination_indices);
    assert(e[7 + tl + dl] == m.recovery_type.spec_byte());
    assert(e.subrange(8 + tl + dl, 12 + tl + dl) =~= spec_u32_to_le_bytes(m.created_at_block));
    assert(e.subrange(12 + tl + dl, 16 + tl + dl) =~= spec_u32_to_le_bytes(m.vault_index));
    assert(m.recovery_type.spec_byte() <= 2);
    assert(spec_recovery_type_of_byte(m.recovery_type.spec_byte()) == m.recovery_type);
}

/// Truncation law: every strict prefix of an encoding is rejected by the
/// decoder, whatever field boundary the cut falls on.
pub proof fn lemma_truncated_prefix_rejected(m: VaultMetadataView, n: int)
    requires
        m.wf(),
        0 <= n < spec_encode(m).len(),
    ensures
        spec_decode(spec_encode(m).take(n)) is Err,
{
    let tid = encode_utf8(m.template_id);
    let tl = tid.len() as int;
    let dl = m.destination_indices.len() as int;
    let e = spec_encode(m);
    let t = e.take(n);
    lemma_auto_spec_u32_to_from_le_bytes();
    encode_utf8_valid_utf8(m.template_id);
    assert(e.len() == 16 + tl + dl);
    assert(forall|i: int| 0 <= i < n ==> t[i] == e[i]);
    if n >= 2 {
        assert(t[1] as int == tl);
        if 2 + tl <= n {
            assert(t.subrange(2, 2 + tl) =~= tid);
            let p2 = 6 + tl;
            if p2 < n {
                assert(t[p2] as int == dl);
                let p4 = 7 + tl + dl;
                if p4 < n {
                    assert(t[p4] == m.recovery_type.spec_byte());
                    assert(m.recovery_type.spec_byte() <= 2);
                    // the final field needs bytes up to e.len(), past any
                    // strict prefix
                    assert(12 + tl + dl + 4 > n);
                }
            }
        }
    }
}

/// Invalid-discriminant law: a buffer whose recovery-type byte is not 0, 1
/// or 2 is rejected with a message naming the bad value.
pub proof fn lemma_invalid_recovery_byte_rejected(m: VaultMetadataView, b: u8)
    requires
        m.wf(),
        b > 2,
    ensures
        spec_decode(
            spec_encode(m).update(
                7 + encode_utf8(m.template_id).len() + m.destination_indices.len() as int,
                b,
            ),
        ) == Err::<VaultMetadataView, Seq<char>>(
            "Invalid recovery_type: "@ + decimal_digits(b as nat),
        ),
{
    let tid = encode_utf8(m.template_id);
    let tl = tid.len() as int;
    let dl = m.destination_indices.len() as int;
    let e = spec_encode(m);
    let p = 7 + tl + dl;
    let u = e.update(p, b);
    lemma_auto_spec_u32_to_from_le_bytes();
    encode_utf8_valid_utf8(m.template_id);
    assert(e.len() == 16 + tl + dl);
    assert(u.len() == e.len());
    assert(forall|i: int| 0 <= i < e.len() && i != p ==> u[i] == e[i]);
    assert(u[1] as int == tl);
    assert(u.subrange(2, 2 + tl) =~= tid);
    assert(u[6 + tl] as int == dl);
    assert(u[p] == b);
}

} // verus!
